//! The operating modes of the agent and the tools each one may use.
//!
//! A mode is a point on one axis, from autonomy to safety: `Write` may change
//! files and run commands, `QuickEdit` may read and edit but not run anything,
//! `Ask` may only read, and `Manual` may read and propose but never applies a
//! change itself. Along that axis the modes are nested: what `Ask` may use,
//! `QuickEdit` may use to read, and what `QuickEdit` may use, `Write` may use.

use vstd::prelude::*;

verus! {

/// The modes an agent session can run in.
#[derive(Clone, Copy, Debug, PartialEq, Eq, Hash, Structural)]
pub enum AgentMode {
    /// Full access: every tool that reads, changes or runs something.
    Write,
    /// Read-only, for questions and analysis.
    Ask,
    /// Scoped edits to a selected range.
    QuickEdit,
    /// The agent suggests, the user applies.
    Manual,
}

/// A tool that changes the contents of a file.
pub open spec fn is_mutating_tool(name: Seq<char>) -> bool {
    name == "write_file"@ || name == "edit_file"@
}

/// A tool that runs a command.
pub open spec fn is_execution_tool(name: Seq<char>) -> bool {
    name == "run_command"@
}

/// A tool that only reads.
pub open spec fn is_read_tool(name: Seq<char>) -> bool {
    name == "read_file"@ || name == "search_files"@ || name == "list_files"@ || name
        == "get_file_outline"@
}

impl AgentMode {
    /// The name shown for the mode.
    pub open spec fn name_text(self) -> Seq<char> {
        match self {
            AgentMode::Write => "Write"@,
            AgentMode::Ask => "Ask"@,
            AgentMode::QuickEdit => "Quick Edit"@,
            AgentMode::Manual => "Manual"@,
        }
    }

    /// The sentence that explains the mode.
    pub open spec fn description_text(self) -> Seq<char> {
        match self {
            AgentMode::Write => "Full access to tools for comprehensive edits, refactoring, and code generation"@,
            AgentMode::Ask => "Read-only mode for analyzing code, answering questions, and understanding"@,
            AgentMode::QuickEdit => "Focused mode for making quick, scoped edits to selected code ranges"@,
            AgentMode::Manual => "User controls all actions - agent suggests, you decide what to apply"@,
        }
    }

    /// The tools the mode permits, in the order they are offered.
    pub open spec fn capabilities(self) -> Seq<Seq<char>> {
        match self {
            AgentMode::Write => seq![
                "read_file"@,
                "write_file"@,
                "edit_file"@,
                "search_files"@,
                "run_command"@,
                "list_files"@,
                "get_file_outline"@,
            ],
            AgentMode::Ask => seq![
                "read_file"@,
                "search_files"@,
                "list_files"@,
                "get_file_outline"@,
            ],
            AgentMode::QuickEdit => seq![
                "read_file"@,
                "edit_file"@,
                "search_files"@,
                "list_files"@,
                "get_file_outline"@,
            ],
            AgentMode::Manual => seq!["read_file"@, "suggest_edit"@, "search_files"@],
        }
    }

    /// The situations the mode is recommended for.
    pub open spec fn use_case_labels(self) -> Seq<Seq<char>> {
        match self {
            AgentMode::Write => seq![
                "Feature implementation"@,
                "Large refactoring"@,
                "Bug fixing with broad changes"@,
                "Test generation"@,
            ],
            AgentMode::Ask => seq![
                "Code review"@,
                "Understanding codebase"@,
                "Performance analysis"@,
                "Documentation generation"@,
            ],
            AgentMode::QuickEdit => seq![
                "Quick bug fixes"@,
                "Small refactoring"@,
                "Variable renaming"@,
                "Comment updates"@,
            ],
            AgentMode::Manual => seq![
                "Precise control needed"@,
                "Critical code changes"@,
                "Learning from agent suggestions"@,
            ],
        }
    }

    /// The key binding that activates the mode, where it has one.
    pub open spec fn shortcut_text(self) -> Option<Seq<char>> {
        match self {
            AgentMode::QuickEdit => Some("cmd-k or ctrl-alt-k"@),
            _ => None,
        }
    }

    /// Get display name for the mode
    pub fn display_name(&self) -> (name: &'static str)
        ensures
            name@ == self.name_text(),
    {
        match self {
            AgentMode::Write => "Write",
            AgentMode::Ask => "Ask",
            AgentMode::QuickEdit => "Quick Edit",
            AgentMode::Manual => "Manual",
        }
    }

    /// Get description for the mode
    pub fn description(&self) -> (text: &'static str)
        ensures
            text@ == self.description_text(),
    {
        match self {
            AgentMode::Write => {
                "Full access to tools for comprehensive edits, refactoring, and code generation"
            },
            AgentMode::Ask => "Read-only mode for analyzing code, answering questions, and understanding",
            AgentMode::QuickEdit => {
                "Focused mode for making quick, scoped edits to selected code ranges"
            },
            AgentMode::Manual => "User controls all actions - agent suggests, you decide what to apply",
        }
    }

    /// Get which tools are enabled in this mode
    pub fn enabled_tools(&self) -> (tools: Vec<&'static str>)
        ensures
            tools.deep_view() == self.capabilities(),
    {
        let tools = match self {
            AgentMode::Write => vec![
                "read_file",
                "write_file",
                "edit_file",
                "search_files",
                "run_command",
                "list_files",
                "get_file_outline",
            ],
            AgentMode::Ask => vec!["read_file", "search_files", "list_files", "get_file_outline"],
            AgentMode::QuickEdit => vec![
                "read_file",
                "edit_file",
                "search_files",
                "list_files",
                "get_file_outline",
            ],
            AgentMode::Manual => vec!["read_file", "suggest_edit", "search_files"],
        };
        assert(tools.deep_view() =~= self.capabilities());
        tools
    }

    /// Get recommended use cases for this mode
    pub fn use_cases(&self) -> (labels: Vec<&'static str>)
        ensures
            labels.deep_view() == self.use_case_labels(),
    {
        let labels = match self {
            AgentMode::Write => vec![
                "Feature implementation",
                "Large refactoring",
                "Bug fixing with broad changes",
                "Test generation",
            ],
            AgentMode::Ask => vec![
                "Code review",
                "Understanding codebase",
                "Performance analysis",
                "Documentation generation",
            ],
            AgentMode::QuickEdit => vec![
                "Quick bug fixes",
                "Small refactoring",
                "Variable renaming",
                "Comment updates",
            ],
            AgentMode::Manual => vec![
                "Precise control needed",
                "Critical code changes",
                "Learning from agent suggestions",
            ],
        };
        assert(labels.deep_view() =~= self.use_case_labels());
        labels
    }

    /// Get keyboard shortcut hint for this mode
    pub fn shortcut_hint(&self) -> (hint: Option<&'static str>)
        ensures
            hint.is_some() == self.shortcut_text().is_some(),
            hint matches Some(keys) ==> self.shortcut_text() == Some(keys@),
    {
        match self {
            AgentMode::QuickEdit => Some("cmd-k or ctrl-alt-k"),
            _ => None,
        }
    }
}

impl Default for AgentMode {
    /// A session that names no mode runs in `Write`.
    fn default() -> (mode: Self)
        ensures
            mode == AgentMode::Write,
    {
        AgentMode::Write
    }
}

/// The eight tool names are known character by character.
proof fn lemma_tool_names_known()
    ensures
        "read_file"@.len() == 9 && "read_file"@[0] == 'r',
        "write_file"@.len() == 10,
        "edit_file"@.len() == 9 && "edit_file"@[0] == 'e',
        "search_files"@.len() == 12 && "search_files"@[0] == 's',
        "run_command"@.len() == 11,
        "list_files"@.len() == 10 && "list_files"@[0] == 'l',
        "get_file_outline"@.len() == 16,
        "suggest_edit"@.len() == 12 && "suggest_edit"@[1] == 'u',
        "write_file"@[0] == 'w',
        "search_files"@[1] == 'e',
{
    reveal_strlit("read_file");
    reveal_strlit("write_file");
    reveal_strlit("edit_file");
    reveal_strlit("search_files");
    reveal_strlit("run_command");
    reveal_strlit("list_files");
    reveal_strlit("get_file_outline");
    reveal_strlit("suggest_edit");
}

/// Every mode permits at least one tool, and lists no tool twice.
pub proof fn lemma_capabilities_nonempty_and_distinct(mode: AgentMode)
    ensures
        mode.capabilities().len() > 0,
        mode.capabilities().no_duplicates(),
{
    lemma_tool_names_known();
}

/// `Ask` permits no tool that changes a file and none that runs a command,
/// while `Write` permits a tool of each kind.
pub proof fn lemma_ask_excludes_what_write_includes()
    ensures
        forall|i: int|
            0 <= i < AgentMode::Ask.capabilities().len() ==> {
                &&& !is_mutating_tool(#[trigger] AgentMode::Ask.capabilities()[i])
                &&& !is_execution_tool(AgentMode::Ask.capabilities()[i])
            },
        exists|i: int|
            0 <= i < AgentMode::Write.capabilities().len() && is_mutating_tool(
                #[trigger] AgentMode::Write.capabilities()[i],
            ),
        exists|i: int|
            0 <= i < AgentMode::Write.capabilities().len() && is_execution_tool(
                #[trigger] AgentMode::Write.capabilities()[i],
            ),
{
    lemma_tool_names_known();
    assert(is_mutating_tool(AgentMode::Write.capabilities()[1]));
    assert(is_execution_tool(AgentMode::Write.capabilities()[4]));
}

/// `QuickEdit` permits a tool that edits, and none that runs a command.
pub proof fn lemma_quick_edit_edits_without_execution()
    ensures
        AgentMode::QuickEdit.capabilities().contains("edit_file"@),
        forall|i: int|
            0 <= i < AgentMode::QuickEdit.capabilities().len() ==> !is_execution_tool(
                #[trigger] AgentMode::QuickEdit.capabilities()[i],
            ),
{
    lemma_tool_names_known();
    assert(AgentMode::QuickEdit.capabilities()[1] == "edit_file"@);
}

/// `Manual` permits no tool that changes a file and none that runs a
/// command: it may propose an edit, never apply one.
pub proof fn lemma_manual_never_mutates()
    ensures
        AgentMode::Manual.capabilities().contains("suggest_edit"@),
        forall|i: int|
            0 <= i < AgentMode::Manual.capabilities().len() ==> {
                &&& !is_mutating_tool(#[trigger] AgentMode::Manual.capabilities()[i])
                &&& !is_execution_tool(AgentMode::Manual.capabilities()[i])
            },
{
    lemma_tool_names_known();
    assert(AgentMode::Manual.capabilities()[1] == "suggest_edit"@);
}

/// `Ask` is the read-only mode in both directions: each of its tools only
/// reads, and a tool of any mode that only reads is a tool of `Ask`. A tool
/// that only reads neither changes a file nor runs a command.
pub proof fn lemma_ask_holds_the_read_tools(mode: AgentMode)
    ensures
        forall|i: int|
            0 <= i < AgentMode::Ask.capabilities().len() ==> is_read_tool(
                #[trigger] AgentMode::Ask.capabilities()[i],
            ),
        forall|i: int|
            0 <= i < mode.capabilities().len() && is_read_tool(#[trigger] mode.capabilities()[i])
                ==> AgentMode::Ask.capabilities().contains(mode.capabilities()[i]),
        forall|name: Seq<char>| #[trigger]
            is_read_tool(name) ==> !is_mutating_tool(name) && !is_execution_tool(name),
{
    lemma_tool_names_known();
    let ask = AgentMode::Ask.capabilities();
    assert(ask[0] == "read_file"@ && ask[1] == "search_files"@ && ask[2] == "list_files"@ && ask[3]
        == "get_file_outline"@);
}

/// Every tool of `Ask` is a tool of `Write`.
pub proof fn lemma_ask_within_write()
    ensures
        forall|name: Seq<char>| #[trigger]
            AgentMode::Ask.capabilities().contains(name)
                ==> AgentMode::Write.capabilities().contains(name),
{
    let ask = AgentMode::Ask.capabilities();
    let write = AgentMode::Write.capabilities();
    assert(write[0] == ask[0] && write[3] == ask[1] && write[5] == ask[2] && write[6] == ask[3]);
}

/// The modes are nested by what they permit: every tool of `Ask` is a tool
/// that `QuickEdit` reads with, every tool that `QuickEdit` reads with is a
/// tool of `Write`, and so is the one it edits with.
pub proof fn lemma_modes_are_nested()
    ensures
        forall|name: Seq<char>| #[trigger]
            AgentMode::Ask.capabilities().contains(name)
                ==> AgentMode::QuickEdit.capabilities().contains(name) && is_read_tool(name),
        forall|name: Seq<char>| #[trigger]
            AgentMode::QuickEdit.capabilities().contains(name)
                ==> AgentMode::Write.capabilities().contains(name),
{
    let ask = AgentMode::Ask.capabilities();
    let quick = AgentMode::QuickEdit.capabilities();
    let write = AgentMode::Write.capabilities();
    assert(quick[0] == ask[0] && quick[2] == ask[1] && quick[3] == ask[2] && quick[4] == ask[3]);
    assert(write[0] == quick[0] && write[2] == quick[1] && write[3] == quick[2] && write[5]
        == quick[3] && write[6] == quick[4]);
}

} // verus!
