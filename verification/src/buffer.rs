//! The mode of the editor's buffer.

use vstd::prelude::*;

verus! {

/// What the editor's buffer currently shows.
#[derive(Debug, Clone, Copy, PartialEq, Eq, Structural)]
pub enum JirascopeBufferMode {
    Issue,
    Project,
    Tree,
    IssueEdit,
    ProjectEdit,
}

impl JirascopeBufferMode {
    /// Whether the buffer must refuse typing: it does in every mode but the two for editing.
    pub open spec fn read_only(self) -> bool {
        !(self is IssueEdit || self is ProjectEdit)
    }
}

/// Records `mode` as the current one and says whether the buffer is to be read-only in it.
pub fn set_buffer_mode(current: &mut JirascopeBufferMode, mode: JirascopeBufferMode) -> (read_only:
    bool)
    ensures
        *final(current) == mode,
        read_only == mode.read_only(),
{
    *current = mode;
    match mode {
        JirascopeBufferMode::IssueEdit | JirascopeBufferMode::ProjectEdit => false,
        _ => true,
    }
}

/// The mode that was recorded last.
pub fn get_buffer_mode(current: &JirascopeBufferMode) -> (mode: Option<JirascopeBufferMode>)
    ensures
        mode == Some(*current),
{
    Some(*current)
}

} // verus!
