//! The entries that the agent adds to the editor's context menu.

use vstd::prelude::*;

verus! {

/// Context menu item for asking the agent about selected code
pub struct AskAgentAboutThis;

/// Context menu item for quick editing with the agent
pub struct QuickEditWithAgent;

/// Context menu item for generating code from a template
pub struct GenerateFromTemplate;

} // verus!
