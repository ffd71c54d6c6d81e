use crate::curve::{
    canonical_point, check_scalar, is_point_encoding, is_scalar_encoding, point_canonical,
    CurveParams, ELEMENT_LEN,
};
use crate::error::TxError;
use crate::hextext::{from_hex, hex_decoding, hex_text, lemma_hex_round_trip, to_hex};
use crate::wire::{append_bytes, same_bytes, to_array};
use vstd::prelude::*;
use vstd::slice::slice_subrange;
use vstd::std_specs::cmp::PartialEqSpecImpl;

verus! {

/// Width of a packed public key, in bytes.
pub const PUBLIC_KEY_LEN: usize = 32;

/// Width of a packed signature, in bytes.
pub const SIGNATURE_LEN: usize = 64;

/// What 64 bytes must be to stand for a signature: the encoding of the
/// point `R`, then the scalar `s`, least significant byte first.
pub open spec fn is_signature_encoding(bytes: Seq<u8>) -> bool {
    &&& bytes.len() == SIGNATURE_LEN
    &&& is_point_encoding(bytes.subrange(0, ELEMENT_LEN as int))
    &&& is_scalar_encoding(bytes.subrange(ELEMENT_LEN as int, SIGNATURE_LEN as int))
}

/// What decoding the binary form of a public key gives.
pub open spec fn key_decoding(bytes: Seq<u8>) -> Result<Seq<u8>, TxError> {
    if bytes.len() != PUBLIC_KEY_LEN {
        Err(TxError::MalformedEncoding)
    } else {
        match point_canonical(bytes) {
            Some(point) => Ok(point),
            None => Err(TxError::InvalidCurveElement),
        }
    }
}

/// What decoding the text form of a public key gives.
pub open spec fn key_text_decoding(text: Seq<char>) -> Result<Seq<u8>, TxError> {
    match hex_decoding(text) {
        Ok(bytes) => key_decoding(bytes),
        Err(e) => Err(e),
    }
}

/// What decoding the binary form of a signature gives.
pub open spec fn signature_decoding(bytes: Seq<u8>) -> Result<Seq<u8>, TxError> {
    if bytes.len() != SIGNATURE_LEN {
        Err(TxError::MalformedEncoding)
    } else {
        let scalar = bytes.subrange(ELEMENT_LEN as int, SIGNATURE_LEN as int);
        match point_canonical(bytes.subrange(0, ELEMENT_LEN as int)) {
            Some(point) => if is_scalar_encoding(scalar) {
                Ok(point + scalar)
            } else {
                Err(TxError::InvalidCurveElement)
            },
            None => Err(TxError::InvalidCurveElement),
        }
    }
}

/// What decoding the text form of a signature gives.
pub open spec fn signature_text_decoding(text: Seq<char>) -> Result<Seq<u8>, TxError> {
    match hex_decoding(text) {
        Ok(bytes) => signature_decoding(bytes),
        Err(e) => Err(e),
    }
}

/// A public key in its 32-byte compressed form.
///
/// A value of this type always holds the encoding of a point of the curve.
#[derive(Clone, Copy)]
pub struct PackedPublicKey {
    bytes: [u8; 32],
}

impl PartialEq for PackedPublicKey {
    fn eq(&self, other: &Self) -> (same: bool) {
        same_bytes(self.bytes.as_slice(), other.bytes.as_slice())
    }
}

impl PartialEqSpecImpl for PackedPublicKey {
    open spec fn obeys_eq_spec() -> bool {
        true
    }

    open spec fn eq_spec(&self, other: &Self) -> bool {
        self@ == other@
    }
}

impl Eq for PackedPublicKey {

}

impl View for PackedPublicKey {
    type V = Seq<u8>;

    closed spec fn view(&self) -> Seq<u8> {
        self.bytes@
    }
}

impl PackedPublicKey {
    /// The bytes are the encoding of a curve point.
    pub open spec fn valid(&self) -> bool {
        is_point_encoding(self@)
    }

    #[verifier::type_invariant]
    spec fn holds_a_point(&self) -> bool {
        is_point_encoding(self.bytes@)
    }

    /// Decodes the binary form. Fails with `MalformedEncoding` unless there
    /// are exactly 32 bytes, with `InvalidCurveElement` unless they name a
    /// point.
    pub fn from_bytes(bytes: &[u8], params: &CurveParams) -> (decoded: Result<Self, TxError>)
        ensures
            match decoded {
                Ok(key) => key_decoding(bytes@) == Ok::<Seq<u8>, TxError>(key@) && key.valid(),
                Err(e) => key_decoding(bytes@) == Err::<Seq<u8>, TxError>(e),
            },
    {
        if bytes.len() != PUBLIC_KEY_LEN {
            return Err(TxError::MalformedEncoding);
        }
        match canonical_point(bytes, params) {
            Some(point) => Ok(PackedPublicKey { bytes: to_array(point.as_slice()) }),
            None => Err(TxError::InvalidCurveElement),
        }
    }

    /// Decodes the text form: hexadecimal digits of either case for the 32
    /// bytes of the binary form.
    pub fn deserialize(text: &str, params: &CurveParams) -> (decoded: Result<Self, TxError>)
        ensures
            match decoded {
                Ok(key) => key_text_decoding(text@) == Ok::<Seq<u8>, TxError>(key@) && key.valid(),
                Err(e) => key_text_decoding(text@) == Err::<Seq<u8>, TxError>(e),
            },
    {
        match from_hex(text) {
            Ok(bytes) => Self::from_bytes(bytes.as_slice(), params),
            Err(e) => Err(e),
        }
    }

    /// The binary form: the 32 bytes of the compressed point.
    pub fn serialize_packed(&self) -> (bytes: Vec<u8>)
        ensures
            bytes@ == self@,
            self.valid(),
    {
        proof {
            use_type_invariant(self);
        }
        let mut bytes: Vec<u8> = Vec::new();
        append_bytes(&mut bytes, self.bytes.as_slice());
        bytes
    }

    /// The binary form, borrowed.
    pub fn as_bytes(&self) -> (bytes: &[u8])
        ensures
            bytes@ == self@,
            self.valid(),
    {
        proof {
            use_type_invariant(self);
        }
        self.bytes.as_slice()
    }

    /// The text form: lower-case hexadecimal of the binary form.
    pub fn serialize(&self) -> (text: String)
        ensures
            text@ == hex_text(self@),
    {
        to_hex(self.bytes.as_slice())
    }
}

/// A signature in its 64-byte form: the compressed point `R`, then the
/// scalar `s`, least significant byte first.
///
/// A value of this type always holds a point of the curve and a scalar of
/// its field.
#[derive(Clone, Copy)]
pub struct PackedSignature {
    bytes: [u8; 64],
}

impl PartialEq for PackedSignature {
    fn eq(&self, other: &Self) -> (same: bool) {
        same_bytes(self.bytes.as_slice(), other.bytes.as_slice())
    }
}

impl PartialEqSpecImpl for PackedSignature {
    open spec fn obeys_eq_spec() -> bool {
        true
    }

    open spec fn eq_spec(&self, other: &Self) -> bool {
        self@ == other@
    }
}

impl Eq for PackedSignature {

}

impl View for PackedSignature {
    type V = Seq<u8>;

    closed spec fn view(&self) -> Seq<u8> {
        self.bytes@
    }
}

impl PackedSignature {
    /// The bytes are a point encoding followed by a scalar.
    pub open spec fn valid(&self) -> bool {
        is_signature_encoding(self@)
    }

    #[verifier::type_invariant]
    spec fn holds_point_and_scalar(&self) -> bool {
        is_signature_encoding(self.bytes@)
    }

    /// Decodes the binary form. Fails with `MalformedEncoding` unless there
    /// are exactly 64 bytes, with `InvalidCurveElement` unless the first 32
    /// name a point and the last 32 a scalar.
    pub fn from_bytes(bytes: &[u8], params: &CurveParams) -> (decoded: Result<Self, TxError>)
        ensures
            match decoded {
                Ok(sig) => signature_decoding(bytes@) == Ok::<Seq<u8>, TxError>(sig@)
                    && sig.valid(),
                Err(e) => signature_decoding(bytes@) == Err::<Seq<u8>, TxError>(e),
            },
    {
        if bytes.len() != SIGNATURE_LEN {
            return Err(TxError::MalformedEncoding);
        }
        let r_bar = slice_subrange(bytes, 0, ELEMENT_LEN);
        let s_bar = slice_subrange(bytes, ELEMENT_LEN, SIGNATURE_LEN);
        match canonical_point(r_bar, params) {
            Some(point) => {
                if !check_scalar(s_bar) {
                    return Err(TxError::InvalidCurveElement);
                }
                let mut joined: Vec<u8> = point;
                append_bytes(&mut joined, s_bar);
                proof {
                    let r = joined@.subrange(0, ELEMENT_LEN as int);
                    let s = joined@.subrange(ELEMENT_LEN as int, SIGNATURE_LEN as int);
                    assert(r =~= point_canonical(r_bar@).unwrap());
                    assert(s =~= s_bar@);
                }
                Ok(PackedSignature { bytes: to_array(joined.as_slice()) })
            },
            None => Err(TxError::InvalidCurveElement),
        }
    }

    /// Decodes the text form: hexadecimal digits of either case for the 64
    /// bytes of the binary form.
    pub fn deserialize(text: &str, params: &CurveParams) -> (decoded: Result<Self, TxError>)
        ensures
            match decoded {
                Ok(sig) => signature_text_decoding(text@) == Ok::<Seq<u8>, TxError>(sig@)
                    && sig.valid(),
                Err(e) => signature_text_decoding(text@) == Err::<Seq<u8>, TxError>(e),
            },
    {
        match from_hex(text) {
            Ok(bytes) => Self::from_bytes(bytes.as_slice(), params),
            Err(e) => Err(e),
        }
    }

    /// The binary form: 32 bytes of `R`, then 32 bytes of `s`.
    pub fn serialize_packed(&self) -> (bytes: Vec<u8>)
        ensures
            bytes@ == self@,
            self.valid(),
    {
        proof {
            use_type_invariant(self);
        }
        let mut bytes: Vec<u8> = Vec::new();
        append_bytes(&mut bytes, self.bytes.as_slice());
        bytes
    }

    /// The binary form, borrowed.
    pub fn as_bytes(&self) -> (bytes: &[u8])
        ensures
            bytes@ == self@,
            self.valid(),
    {
        proof {
            use_type_invariant(self);
        }
        self.bytes.as_slice()
    }

    /// The text form: lower-case hexadecimal of the binary form.
    pub fn serialize(&self) -> (text: String)
        ensures
            text@ == hex_text(self@),
    {
        to_hex(self.bytes.as_slice())
    }
}

/// Decoding the text form of a valid key gives the key back.
pub proof fn lemma_key_round_trip(key: PackedPublicKey)
    requires
        key.valid(),
    ensures
        key_decoding(key@) == Ok::<Seq<u8>, TxError>(key@),
        key_text_decoding(hex_text(key@)) == Ok::<Seq<u8>, TxError>(key@),
{
    lemma_hex_round_trip(key@);
}

/// Decoding the text form of a valid signature gives the signature back.
pub proof fn lemma_signature_round_trip(sig: PackedSignature)
    requires
        sig.valid(),
    ensures
        signature_decoding(sig@) == Ok::<Seq<u8>, TxError>(sig@),
        signature_text_decoding(hex_text(sig@)) == Ok::<Seq<u8>, TxError>(sig@),
{
    lemma_hex_round_trip(sig@);
    let r = sig@.subrange(0, ELEMENT_LEN as int);
    let s = sig@.subrange(ELEMENT_LEN as int, SIGNATURE_LEN as int);
    assert(r + s =~= sig@);
}

} // verus!
