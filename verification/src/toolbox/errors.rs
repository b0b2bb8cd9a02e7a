use vstd::prelude::*;

verus! {

/// Failures of tree edits.
#[derive(Clone, Copy, Debug, PartialEq, Eq, Structural)]
pub enum TreeError {
    ChildrenUnsupported,
    Loop,
    DoesNotExist,
    SelfParent,
}

/// Failures of event handling.
#[derive(Clone, Copy, Debug, PartialEq, Eq, Structural)]
pub enum EventError {
    WrittenLuaError,
    CompiledLuaError,
    InternalRuntimeError,
    UnknownActionCalled,
    UnknownServerActionCalled,
    EventTypeMismatch,
}

} // verus!
