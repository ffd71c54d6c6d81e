use crate::wire::same_bytes;
use sapling_crypto_ce::alt_babyjubjub::fs::{Fs, FsRepr};
use sapling_crypto_ce::alt_babyjubjub::{edwards, AltJubjubBn256, FixedGenerators, Unknown};
use sapling_crypto_ce::bellman::pairing::bn256::Bn256;
use sapling_crypto_ce::bellman::pairing::ff::{PrimeField, PrimeFieldRepr};
use sapling_crypto_ce::eddsa::{PublicKey, Signature};
use vstd::prelude::*;

verus! {

/// Width of a compressed curve point and of a scalar, in bytes.
pub const ELEMENT_LEN: usize = 32;

/// The parameter table of the curve crate.
#[verifier::external_type_specification]
#[verifier::external_body]
pub struct ExAltJubjubBn256(AltJubjubBn256);

/// The curve's parameters: built once, then only read. Every function that
/// touches the curve takes them by shared reference.
pub struct CurveParams {
    table: AltJubjubBn256,
}

impl CurveParams {
    /// Computes the parameter table. This is costly: do it once and share
    /// the result.
    pub fn new() -> (params: Self) {
        CurveParams { table: build_table() }
    }
}

/// `AltJubjubBn256::new`: the table is a constant of the curve, so nothing
/// is stated of it.
#[verifier::external_body]
fn build_table() -> AltJubjubBn256 {
    AltJubjubBn256::new()
}

/// The number that `bytes` spell in base 256, least significant first.
pub open spec fn le_value(bytes: Seq<u8>) -> nat
    decreases bytes.len(),
{
    if bytes.len() == 0 {
        0
    } else {
        bytes.first() as nat + 256 * le_value(bytes.drop_first())
    }
}

/// Order of the curve's scalar field.
pub open spec fn scalar_modulus() -> nat {
    2736030358979909402780800718157159386076813972158567259200215660948447373041nat
}

/// What the curve crate makes of 32 bytes read as a compressed point: the
/// compressed form of the point it found, or `None` where the bytes name no
/// point of the curve.
pub uninterp spec fn point_decoding(bytes: Seq<u8>) -> Option<Seq<u8>>;

/// Whether the curve crate accepts `signature`, 64 bytes, for `message`
/// under `key`, with the challenge taken by SHA-256 and the generator that is
/// reserved for spending keys.
pub uninterp spec fn musig_sha256_accepts(
    key: Seq<u8>,
    signature: Seq<u8>,
    message: Seq<u8>,
) -> bool;

/// `bytes` are the compressed form that the curve crate itself writes for
/// the point they name.
pub open spec fn is_point_encoding(bytes: Seq<u8>) -> bool {
    bytes.len() == ELEMENT_LEN && point_decoding(bytes) == Some(bytes)
}

/// `bytes` are a scalar of the field, least significant byte first.
pub open spec fn is_scalar_encoding(bytes: Seq<u8>) -> bool {
    bytes.len() == ELEMENT_LEN && le_value(bytes) < scalar_modulus()
}

/// The point encoding that 32 bytes are accepted as: what they decode to,
/// provided that this is an encoding that decodes to itself.
pub open spec fn point_canonical(bytes: Seq<u8>) -> Option<Seq<u8>> {
    match point_decoding(bytes) {
        Some(found) => if is_point_encoding(found) {
            Some(found)
        } else {
            None
        },
        None => None,
    }
}

/// `edwards::Point::read`, then `Point::write` on what it found. The
/// parameters are a constant of the curve, so the result is a function of the
/// bytes alone; a point is written as 32 bytes.
#[verifier::external_body]
fn decode_point(bytes: &[u8], params: &CurveParams) -> (found: Option<Vec<u8>>)
    ensures
        match found {
            Some(compressed) => point_decoding(bytes@) == Some(compressed@) && compressed@.len()
                == ELEMENT_LEN,
            None => point_decoding(bytes@) is None,
        },
{
    let point = edwards::Point::<Bn256, Unknown>::read(bytes, &params.table).ok()?;
    let mut compressed = vec![0u8; 32];
    point.write(&mut compressed[..]).ok()?;
    Some(compressed)
}

/// `FsRepr::read_le`, then `Fs::from_repr`: the four little-endian words
/// are accepted exactly when the number they spell is below the modulus of
/// the scalar field.
#[verifier::external_body]
fn scalar_in_field(bytes: &[u8]) -> (accepted: bool)
    requires
        bytes@.len() == ELEMENT_LEN,
    ensures
        accepted == (le_value(bytes@) < scalar_modulus()),
{
    let mut repr = FsRepr::default();
    repr.read_le(bytes).is_ok() && Fs::from_repr(repr).is_ok()
}

/// `PublicKey::verify_musig_sha256` with `FixedGenerators::SpendingKeyGenerator`,
/// on the key, the point `R` and the scalar `s` that the bytes encode. The
/// verdict is a function of the three byte strings; nothing more is claimed
/// of it. The encodings must be well formed, so that reading them cannot
/// fail.
#[verifier::external_body]
pub(crate) fn musig_sha256_check(
    key: &[u8],
    signature: &[u8],
    message: &[u8],
    params: &CurveParams,
) -> (accepted: bool)
    requires
        is_point_encoding(key@),
        signature@.len() == 2 * ELEMENT_LEN,
        is_point_encoding(signature@.subrange(0, ELEMENT_LEN as int)),
        is_scalar_encoding(signature@.subrange(ELEMENT_LEN as int, 2 * ELEMENT_LEN)),
    ensures
        accepted == musig_sha256_accepts(key@, signature@, message@),
{
    let key = PublicKey::<Bn256>(edwards::Point::read(key, &params.table).unwrap());
    let r = edwards::Point::read(&signature[..32], &params.table).unwrap();
    let mut repr = FsRepr::default();
    repr.read_le(&signature[32..]).unwrap();
    let s = Fs::from_repr(repr).unwrap();
    let signature = Signature { r, s };
    let generator = FixedGenerators::SpendingKeyGenerator;
    key.verify_musig_sha256(message, &signature, generator, &params.table)
}

/// The point encoding that `bytes` are accepted as, if any.
pub fn canonical_point(bytes: &[u8], params: &CurveParams) -> (found: Option<Vec<u8>>)
    ensures
        match found {
            Some(compressed) => point_canonical(bytes@) == Some(compressed@),
            None => point_canonical(bytes@) is None,
        },
{
    match decode_point(bytes, params) {
        None => None,
        Some(compressed) => {
            match decode_point(compressed.as_slice(), params) {
                None => None,
                Some(again) => {
                    if same_bytes(again.as_slice(), compressed.as_slice()) {
                        Some(compressed)
                    } else {
                        None
                    }
                },
            }
        },
    }
}

/// Whether `bytes` are a scalar of the field.
pub fn check_scalar(bytes: &[u8]) -> (accepted: bool)
    ensures
        accepted == is_scalar_encoding(bytes@),
{
    bytes.len() == ELEMENT_LEN && scalar_in_field(bytes)
}

} // verus!
