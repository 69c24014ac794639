//! What can go wrong, by kind.

use vstd::prelude::*;

verus! {

/// The kinds of failure.
#[derive(Clone, Copy, Debug, PartialEq, Eq, Hash, Structural)]
pub enum EngineError {
    /// The hidden state is missing where a scheduler is to be started.
    NotInitialized,
    /// The hidden state was to be created outside a project root.
    NotAProjectRoot,
    /// The scheduler process could not be started or looked for.
    ProcessLifecycleFailure,
    /// The checked-out position or the shadow pointer could not be resolved.
    RefResolutionFailure,
    /// Staging, writing a tree or writing a commit failed.
    ObjectStoreFailure,
}

impl EngineError {
    /// The failure in words.
    pub open spec fn spec_message(self) -> Seq<char> {
        match self {
            EngineError::NotInitialized => "eis is not initialized"@,
            EngineError::NotAProjectRoot => "eis should be instantiated at the root of your git repository"@,
            EngineError::ProcessLifecycleFailure => "the eis daemon could not be started or found"@,
            EngineError::RefResolutionFailure => "the checked-out commit or the eis head could not be resolved"@,
            EngineError::ObjectStoreFailure => "the snapshot could not be staged or written"@,
        }
    }

    /// The failure in words.
    pub fn message(&self) -> (text: &'static str)
        ensures
            text@ == self.spec_message(),
    {
        match *self {
            EngineError::NotInitialized => "eis is not initialized",
            EngineError::NotAProjectRoot => "eis should be instantiated at the root of your git repository",
            EngineError::ProcessLifecycleFailure => "the eis daemon could not be started or found",
            EngineError::RefResolutionFailure => "the checked-out commit or the eis head could not be resolved",
            EngineError::ObjectStoreFailure => "the snapshot could not be staged or written",
        }
    }
}

} // verus!
