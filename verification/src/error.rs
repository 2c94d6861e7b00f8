use vstd::prelude::*;

verus! {

/// A failure reported while creating a resource.
///
/// Creation errors propagate synchronously to the caller of `get_or_create`;
/// the pool records nothing for the descriptor, so a later request retries
/// creation from scratch.
#[derive(Clone, PartialEq, Eq, Debug)]
pub enum ResourceError {
    /// The backend reported a failure while constructing the resource.
    ResourceCreation { message: String },
    /// A shader source identifier could not be resolved to source text.
    AssetNotFound { identifier: String },
}

} // verus!
