//! Quick edits: the selection a user hands to the agent, where it sits in
//! the buffer, and how that is written into a prompt.

use std::ops::Range;
use vstd::prelude::*;
use vstd::utf8::*;
use crate::buffer::{is_text_range, path_text, BufferSnapshot};
use crate::decimal::{decimal, decimal_string};
use crate::lines::{column_at, lemma_positions_ordered, row_at};
use crate::suffix::ends_with;

verus! {

/// Asks for an edit of the selected code.
#[derive(PartialEq)]
pub struct QuickEdit {
    /// The instruction for the edit.
    pub prompt: String,
}

impl Clone for QuickEdit {
    fn clone(&self) -> (copy: Self)
        ensures
            copy == *self,
    {
        QuickEdit { prompt: self.prompt.clone() }
    }
}

/// Asks to send the selected code to the agent panel.
#[derive(Clone, Copy, PartialEq, Eq, Structural)]
pub struct SendSelectionToAgent;

/// Asks to open the quick edit prompt for the current selection.
#[derive(Clone, Copy, PartialEq, Eq, Structural)]
pub struct OpenQuickEditForSelection;

/// Why a selection could not be described.
#[derive(Clone, Copy, Debug, PartialEq, Eq, Structural)]
pub enum ExtractionError {
    /// The selection does not lie inside the buffer, or ends before it starts.
    OutOfBounds,
}

/// Whether the half-open byte range `selection` lies inside a buffer of
/// `len` bytes.
pub open spec fn selection_in_bounds(selection: Range<usize>, len: nat) -> bool {
    selection.start <= selection.end <= len
}

/// What stands between the parts of a label.
pub const SEPARATOR: &'static str = " â€¢ ";

/// The language that a path's extension stands for, or nothing where the
/// extension is not known. Only the end of the path is looked at.
pub open spec fn language_of(path: Seq<char>) -> Seq<char> {
    if ".rs"@.is_suffix_of(path) {
        "rust"@
    } else if ".ts"@.is_suffix_of(path) || ".tsx"@.is_suffix_of(path) {
        "typescript"@
    } else if ".js"@.is_suffix_of(path) || ".jsx"@.is_suffix_of(path) {
        "javascript"@
    } else if ".py"@.is_suffix_of(path) {
        "python"@
    } else if ".go"@.is_suffix_of(path) {
        "go"@
    } else if ".c"@.is_suffix_of(path) || ".h"@.is_suffix_of(path) {
        "c"@
    } else if ".cpp"@.is_suffix_of(path) || ".cc"@.is_suffix_of(path) {
        "cpp"@
    } else if ".java"@.is_suffix_of(path) {
        "java"@
    } else if ".sql"@.is_suffix_of(path) {
        "sql"@
    } else {
        Seq::empty()
    }
}

/// The extensions that are known, each with the language it stands for.
pub open spec fn extension_table() -> Seq<(Seq<char>, Seq<char>)> {
    seq![
        (".rs"@, "rust"@),
        (".ts"@, "typescript"@),
        (".tsx"@, "typescript"@),
        (".js"@, "javascript"@),
        (".jsx"@, "javascript"@),
        (".py"@, "python"@),
        (".go"@, "go"@),
        (".c"@, "c"@),
        (".h"@, "c"@),
        (".cpp"@, "cpp"@),
        (".cc"@, "cpp"@),
        (".java"@, "java"@),
        (".sql"@, "sql"@),
    ]
}

/// Where `extension` ends `path`, the last three characters of `path` are
/// those of `extension`, as far as it has them.
proof fn lemma_suffix_ends(extension: Seq<char>, path: Seq<char>)
    ensures
        extension.is_suffix_of(path) ==> {
            &&& extension.len() <= path.len()
            &&& extension.len() >= 1 ==> path[path.len() - 1] == extension[extension.len() - 1]
            &&& extension.len() >= 2 ==> path[path.len() - 2] == extension[extension.len() - 2]
            &&& extension.len() >= 3 ==> path[path.len() - 3] == extension[extension.len() - 3]
        },
{
    if extension.is_suffix_of(path) {
        let from = path.len() - extension.len();
        let tail = path.subrange(from, path.len() as int);
        if extension.len() >= 1 {
            assert(tail[extension.len() - 1] == path[path.len() - 1]);
        }
        if extension.len() >= 2 {
            assert(tail[extension.len() - 2] == path[path.len() - 2]);
        }
        if extension.len() >= 3 {
            assert(tail[extension.len() - 3] == path[path.len() - 3]);
        }
    }
}

/// `language_of` is a lookup in the table of extensions, and the order of
/// the table does not matter: a path that ends with an extension of the
/// table has the language of that extension, and a path that ends with none
/// of them has no language.
pub proof fn lemma_language_is_table_lookup(path: Seq<char>)
    ensures
        forall|i: int|
            0 <= i < extension_table().len() && (#[trigger] extension_table()[i]).0.is_suffix_of(
                path,
            ) ==> language_of(path) == extension_table()[i].1,
        (forall|i: int|
            0 <= i < extension_table().len() ==> !(#[trigger] extension_table()[i]).0.is_suffix_of(
                path,
            )) ==> language_of(path) == Seq::<char>::empty(),
{
    reveal_strlit(".rs");
    reveal_strlit(".ts");
    reveal_strlit(".tsx");
    reveal_strlit(".js");
    reveal_strlit(".jsx");
    reveal_strlit(".py");
    reveal_strlit(".go");
    reveal_strlit(".c");
    reveal_strlit(".h");
    reveal_strlit(".cpp");
    reveal_strlit(".cc");
    reveal_strlit(".java");
    reveal_strlit(".sql");
    let table = extension_table();
    lemma_suffix_ends(table[0].0, path);
    lemma_suffix_ends(table[1].0, path);
    lemma_suffix_ends(table[2].0, path);
    lemma_suffix_ends(table[3].0, path);
    lemma_suffix_ends(table[4].0, path);
    lemma_suffix_ends(table[5].0, path);
    lemma_suffix_ends(table[6].0, path);
    lemma_suffix_ends(table[7].0, path);
    lemma_suffix_ends(table[8].0, path);
    lemma_suffix_ends(table[9].0, path);
    lemma_suffix_ends(table[10].0, path);
    lemma_suffix_ends(table[11].0, path);
    lemma_suffix_ends(table[12].0, path);
}

/// Information about the context of a selection. Lines and columns count
/// from zero.
#[derive(Debug)]
pub struct ContextInfo {
    pub file_path: Option<String>,
    pub start_line: u32,
    pub end_line: u32,
    pub start_column: u32,
    pub end_column: u32,
}

impl Clone for ContextInfo {
    fn clone(&self) -> (copy: Self)
        ensures
            copy == *self,
    {
        ContextInfo {
            file_path: match &self.file_path {
                Some(path) => Some(path.clone()),
                None => None,
            },
            start_line: self.start_line,
            end_line: self.end_line,
            start_column: self.start_column,
            end_column: self.end_column,
        }
    }
}

impl ContextInfo {
    /// The path of the file the selection is in, where it has one.
    pub open spec fn path(self) -> Option<Seq<char>> {
        path_text(self.file_path)
    }

    /// Whether this is the context of the bytes `[start, end)` of `snapshot`.
    pub open spec fn describes(self, snapshot: BufferSnapshot, start: int, end: int) -> bool {
        &&& self.path() == snapshot.path()
        &&& self.start_line == row_at(snapshot.bytes(), start)
        &&& self.start_column == column_at(snapshot.bytes(), start)
        &&& self.end_line == row_at(snapshot.bytes(), end)
        &&& self.end_column == column_at(snapshot.bytes(), end)
    }

    /// The lines of the selection as a reader counts them, from one.
    pub open spec fn line_label(self) -> Seq<char> {
        if self.start_line == self.end_line {
            "Line "@ + decimal((self.start_line + 1) as nat)
        } else {
            "Lines "@ + decimal((self.start_line + 1) as nat) + "-"@ + decimal(
                (self.end_line + 1) as nat,
            )
        }
    }

    /// The label of the selection: the file, where there is one, then the
    /// lines.
    pub open spec fn label(self) -> Seq<char> {
        match self.file_path {
            Some(path) => "File: "@ + path@ + SEPARATOR@ + self.line_label(),
            None => self.line_label(),
        }
    }

    /// The tag of the fence that holds the code.
    pub open spec fn language_tag(self) -> Seq<char> {
        match self.file_path {
            Some(path) => language_of(path@),
            None => Seq::empty(),
        }
    }

    /// The label in a fenced block of its own, a blank line, and `code` in a
    /// second fenced block that is tagged with the language.
    pub open spec fn agent_text(self, code: Seq<char>) -> Seq<char> {
        "```\n"@ + self.label() + "\n```\n\n"@ + "```"@ + self.language_tag() + "\n"@ + code
            + "\n```"@
    }

    /// Format context info as a human-readable string
    pub fn format(&self) -> (text: String)
        ensures
            text@ == self.label(),
    {
        let mut text = String::new();
        if let Some(path) = &self.file_path {
            text.append("File: ");
            text.append(path.as_str());
            text.append(SEPARATOR);
        }
        let first = decimal_string(self.start_line as u64 + 1);
        if self.start_line == self.end_line {
            text.append("Line ");
            text.append(first.as_str());
        } else {
            let last = decimal_string(self.end_line as u64 + 1);
            text.append("Lines ");
            text.append(first.as_str());
            text.append("-");
            text.append(last.as_str());
        }
        assert(text@ =~= self.label());
        text
    }

    /// Format selection with code block and context for agent
    pub fn format_for_agent(&self, code: &str) -> (text: String)
        ensures
            text@ == self.agent_text(code@),
    {
        let mut text = String::new();

        let context = self.format();
        text.append("```\n");
        text.append(context.as_str());
        text.append("\n```\n\n");

        let language = self.infer_language();
        text.append("```");
        text.append(language.as_str());
        text.append("\n");
        text.append(code);
        text.append("\n```");

        assert(text@ =~= self.agent_text(code@));
        text
    }

    /// Infer programming language from file path
    pub fn infer_language(&self) -> (tag: String)
        ensures
            tag@ == self.language_tag(),
    {
        if let Some(path) = &self.file_path {
            let path = path.as_str();
            if ends_with(path, ".rs") {
                String::from_str("rust")
            } else if ends_with(path, ".ts") || ends_with(path, ".tsx") {
                String::from_str("typescript")
            } else if ends_with(path, ".js") || ends_with(path, ".jsx") {
                String::from_str("javascript")
            } else if ends_with(path, ".py") {
                String::from_str("python")
            } else if ends_with(path, ".go") {
                String::from_str("go")
            } else if ends_with(path, ".c") || ends_with(path, ".h") {
                String::from_str("c")
            } else if ends_with(path, ".cpp") || ends_with(path, ".cc") {
                String::from_str("cpp")
            } else if ends_with(path, ".java") {
                String::from_str("java")
            } else if ends_with(path, ".sql") {
                String::from_str("sql")
            } else {
                String::new()
            }
        } else {
            String::new()
        }
    }
}

/// Describes where `selection` sits in `snapshot`.
///
/// A selection that starts behind the end of the buffer, ends behind it, or
/// ends before it starts is out of bounds; every other selection, the empty
/// one included, is described.
pub fn extract(snapshot: &BufferSnapshot, selection: &Range<usize>) -> (result: Result<
    ContextInfo,
    ExtractionError,
>)
    ensures
        result is Ok <==> selection_in_bounds(*selection, snapshot.bytes().len()),
        result matches Ok(info) ==> info.describes(
            *snapshot,
            selection.start as int,
            selection.end as int,
        ),
        result matches Ok(info) ==> info.start_line <= info.end_line && (info.start_line
            == info.end_line ==> info.start_column <= info.end_column),
        result matches Err(error) ==> error == ExtractionError::OutOfBounds,
        selection.start > snapshot.bytes().len() ==> result is Err,
{
    let len = snapshot.len();
    if selection.start > len || selection.end > len || selection.start > selection.end {
        return Err(ExtractionError::OutOfBounds);
    }
    proof {
        lemma_positions_ordered(snapshot.bytes(), selection.start as int, selection.end as int);
    }
    let start = snapshot.offset_to_point(selection.start);
    let end = snapshot.offset_to_point(selection.end);
    Ok(
        ContextInfo {
            file_path: snapshot.file_path(),
            start_line: start.row,
            end_line: end.row,
            start_column: start.column,
            end_column: end.column,
        },
    )
}

/// The state of one quick edit: the selection it is about and the prompt
/// typed so far.
///
/// The editor itself is not held here. Whoever holds the handle to it passes
/// in a snapshot of its buffer, or `None` once the editor is gone.
pub struct QuickEditState {
    selection_range: Range<usize>,
    #[allow(dead_code)]
    prompt: String,
}

impl QuickEditState {
    /// The range of text to edit.
    pub closed spec fn selection(self) -> Range<usize> {
        self.selection_range
    }

    /// The prompt typed so far.
    pub closed spec fn prompt_text(self) -> Seq<char> {
        self.prompt@
    }

    /// Starts a quick edit of `selection_range` with an empty prompt.
    pub fn new(selection_range: Range<usize>) -> (state: Self)
        ensures
            state.selection() == selection_range,
            state.prompt_text() == Seq::<char>::empty(),
    {
        Self { selection_range, prompt: String::new() }
    }

    /// Get the selected text from the editor
    ///
    /// Every selection inside the buffer has a text, the empty selection at
    /// the end of the buffer included. There is none where the editor is
    /// gone, where the selection is out of bounds, or where it splits a
    /// character.
    pub fn selected_text(&self, snapshot: Option<&BufferSnapshot>) -> (text: Option<String>)
        ensures
            text is Some <==> (snapshot matches Some(s) && is_text_range(
                s.bytes(),
                self.selection().start as int,
                self.selection().end as int,
            )),
            text is Some ==> (snapshot matches Some(s) && selection_in_bounds(
                self.selection(),
                s.bytes().len(),
            )),
            text matches Some(t) ==> (snapshot matches Some(s) && encode_utf8(t@)
                == s.bytes().subrange(
                self.selection().start as int,
                self.selection().end as int,
            )),
    {
        match snapshot {
            None => None,
            Some(buffer) => {
                let start_offset = self.selection_range.start;
                let end_offset = self.selection_range.end;
                if start_offset > buffer.len() || end_offset > buffer.len() || start_offset
                    > end_offset {
                    return None;
                }
                buffer.text_for_range(start_offset, end_offset)
            },
        }
    }

    /// Get file context information for the selection
    ///
    /// There is none where the editor is gone or the selection is out of
    /// bounds.
    pub fn get_context_info(&self, snapshot: Option<&BufferSnapshot>) -> (info: Option<
        ContextInfo,
    >)
        ensures
            info is Some <==> (snapshot matches Some(s) && selection_in_bounds(
                self.selection(),
                s.bytes().len(),
            )),
            info matches Some(i) ==> (snapshot matches Some(s) && i.describes(
                *s,
                self.selection().start as int,
                self.selection().end as int,
            )),
    {
        match snapshot {
            None => None,
            Some(buffer) => match extract(buffer, &self.selection_range) {
                Ok(info) => Some(info),
                Err(_) => None,
            },
        }
    }
}

} // verus!
