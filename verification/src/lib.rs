//! Core logic behind an editor-embedded coding agent: which tools each agent
//! mode may use, where a selection sits in a buffer, and how that context and
//! the token budget are rendered as text.

pub mod agent_context_menu;
pub mod agent_modes;
pub mod buffer;
pub mod decimal;
pub mod encoding;
pub mod lines;
pub mod quick_edit;
pub mod suffix;
pub mod visual_indicators;
