//! The result codes that the plugin's entry points report to the host.
use vstd::prelude::*;

verus! {

/// A VST3 `tresult`, as far as the plugin uses it.
#[derive(Clone, Copy, PartialEq, Eq, Structural, Debug)]
pub enum ResultCode {
    /// `kResultOk`
    ResultOk,
    /// `kResultFalse`
    ResultFalse,
    /// `kInvalidArgument`
    InvalidArgument,
    /// `kNoInterface`
    NoInterface,
}

} // verus!
