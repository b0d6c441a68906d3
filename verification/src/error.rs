use vstd::prelude::*;

verus! {

/// What can go wrong while a document is built or written out.
#[derive(Debug, PartialEq, Eq)]
pub enum ReqIfError {
    /// A hierarchy node was to be inserted below a level that holds no node.
    /// `depth` is the depth that was still to go when the empty level was met.
    MissingIntermediateLevel { depth: i32 },
    /// The XML writer refused the document; `cause` is the writer's message.
    SerializationFailure { cause: String },
}

} // verus!
