use vstd::prelude::*;

verus! {

/// The issuer's answer to one conflict request. `apply_to_all` makes the
/// choice sticky for the remainder of the one operation that asked.
#[derive(Clone, Copy, Debug, Eq, PartialEq, Structural)]
pub enum ReplaceResult {
    /// Overwrite the existing destination item.
    Replace(bool),
    /// Leave the destination untouched and move on.
    Skip(bool),
    /// Write under a synthesized alternate name instead.
    KeepBoth,
    /// Abort the whole operation; treated as user cancellation.
    Cancel,
}

/// A sticky conflict resolution, cached once the issuer answers with
/// `apply_to_all` set. Only the two repeatable choices can be sticky.
#[derive(Clone, Copy, Debug, Eq, PartialEq, Structural)]
pub enum StickyResolution {
    Replace,
    Skip,
}

/// One naming conflict, sent from a running operation to the issuer:
/// the destination that already exists, the incoming source item, and
/// whether more conflicts may still follow within this operation.
#[derive(Clone, Debug, Eq, PartialEq)]
pub struct ConflictRequest {
    pub existing: String,
    pub incoming: String,
    pub multiple: bool,
}

} // verus!
