use vstd::prelude::*;

verus! {

/// The answers that the driver framework accepts from a callback.
#[derive(Clone, Copy, Debug, PartialEq, Eq, Structural)]
pub enum Status {
    Success,
    NoSuchFile,
    InternalError,
}

} // verus!
