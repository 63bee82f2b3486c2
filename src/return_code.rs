use vstd::prelude::*;

verus! {

/// Status code returned by operations that may fail.
#[derive(Clone, Copy, Debug, PartialEq, Eq, Structural)]
#[allow(non_camel_case_types)]
pub enum ReturnCode {
    /// The operation succeeded.
    SUCCESS,
    /// Generic failure.
    FAIL,
    /// The underlying resource is busy or held by another owner.
    EBUSY,
    /// The resource is not in a state in which the operation makes sense.
    EINVAL,
}

} // verus!
