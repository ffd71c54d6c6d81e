use vstd::prelude::*;

verus! {

/// Why a value could not be built.
///
/// A failed signature is no error: verification reports it as `false` or
/// `None`.
#[derive(Clone, Copy, Debug, PartialEq, Eq, Structural)]
pub enum TxError {
    /// The text is not hexadecimal, or the bytes have the wrong length.
    MalformedEncoding,
    /// The bytes have the right length but are no curve point, or no scalar
    /// of the curve's field.
    InvalidCurveElement,
    /// An amount is outside what its fixed-width form can hold.
    AmountOutOfRange,
}

} // verus!
