use vstd::prelude::*;

verus! {

/// Everything that can go wrong at the boundary between native code and scripts.
/// A payload names the offending path, namespace, property or script message.
#[derive(Debug)]
pub enum EngineError {
    /// The runtime or its context could not be created.
    EngineInit,
    /// The context could not be entered on the calling thread.
    ContextEntry,
    /// A module file could not be read.
    ScriptSourceRead(String),
    /// A directory name is not usable as a namespace name.
    InvalidNamespaceName(String),
    /// Two entries of one directory map to the same name.
    DuplicateNamespaceEntry(String),
    /// A module failed to parse, or did not evaluate to something constructible.
    ScriptCompilation(String),
    /// A script threw during construction or during `update`.
    ScriptRuntime(String),
    /// A native method was called on a value that does not carry its payload.
    NativeTypeMismatch,
}

} // verus!
