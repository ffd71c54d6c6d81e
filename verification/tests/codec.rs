use franklin_tx::curve::CurveParams;
use franklin_tx::error::TxError;
use franklin_tx::hextext::{from_hex, to_hex};
use franklin_tx::packed::{PackedPublicKey, PackedSignature};
use franklin_tx::signature::TxSignature;
use rand::{SeedableRng, XorShiftRng};
use sapling_crypto_ce::alt_babyjubjub::fs::Fs;
use sapling_crypto_ce::alt_babyjubjub::{AltJubjubBn256, FixedGenerators};
use sapling_crypto_ce::bellman::pairing::bn256::Bn256;
use sapling_crypto_ce::bellman::pairing::ff::{PrimeField, PrimeFieldRepr};
use sapling_crypto_ce::eddsa::{PrivateKey, PublicKey};

/// The scalar field's modulus, least significant byte first.
const MODULUS_LE: &str = "f1262139dc9772670aee2039b8ed3eab0b2b30d0b6080a370534265cce890c06";

/// The largest scalar, least significant byte first.
const LARGEST_SCALAR_LE: &str = "f0262139dc9772670aee2039b8ed3eab0b2b30d0b6080a370534265cce890c06";

/// The compressed neutral point.
const NEUTRAL: &str = "0100000000000000000000000000000000000000000000000000000000000000";

fn key_bytes(secret: &str, table: &AltJubjubBn256) -> [u8; 32] {
    let private = PrivateKey::<Bn256>(Fs::from_str(secret).unwrap());
    let public = PublicKey::from_private(&private, FixedGenerators::SpendingKeyGenerator, table);
    let mut bytes = [0u8; 32];
    public.write(&mut bytes[..]).unwrap();
    bytes
}

fn signature_bytes(secret: &str, message: &[u8], table: &AltJubjubBn256) -> [u8; 64] {
    let private = PrivateKey::<Bn256>(Fs::from_str(secret).unwrap());
    let mut rng = XorShiftRng::from_seed([0x5dbe6259, 0x8d313d76, 0x3237db17, 0xe5bc0654]);
    let signature = private.musig_sha256_sign(
        message,
        &mut rng,
        FixedGenerators::SpendingKeyGenerator,
        table,
    );
    let mut bytes = [0u8; 64];
    signature.r.write(&mut bytes[..32]).unwrap();
    signature.s.into_repr().write_le(&mut bytes[32..]).unwrap();
    bytes
}

#[test]
fn hex_text_is_lower_case_high_half_first() {
    assert_eq!(to_hex(&[0x00, 0xab, 0xff, 0x1e, 0x90]), "00abff1e90");
    assert_eq!(to_hex(&[]), "");
}

#[test]
fn hex_text_is_read_in_either_case() {
    assert_eq!(from_hex("00abff1e90"), Ok(vec![0x00, 0xab, 0xff, 0x1e, 0x90]));
    assert_eq!(from_hex("00ABFF1E90"), Ok(vec![0x00, 0xab, 0xff, 0x1e, 0x90]));
    assert_eq!(from_hex("00aBFf1E90"), Ok(vec![0x00, 0xab, 0xff, 0x1e, 0x90]));
    assert_eq!(from_hex(""), Ok(vec![]));
}

#[test]
fn text_that_is_not_hex_is_malformed() {
    assert_eq!(from_hex("abc"), Err(TxError::MalformedEncoding));
    assert_eq!(from_hex("zz"), Err(TxError::MalformedEncoding));
    assert_eq!(from_hex("0g"), Err(TxError::MalformedEncoding));
    assert_eq!(from_hex("0x00"), Err(TxError::MalformedEncoding));
    assert_eq!(from_hex(" 00"), Err(TxError::MalformedEncoding));
    assert_eq!(from_hex("\u{e9}\u{e9}"), Err(TxError::MalformedEncoding));
    assert_eq!(from_hex("\u{e9}"), Err(TxError::MalformedEncoding));
}

#[test]
fn every_byte_survives_the_round_trip_through_text() {
    let bytes: Vec<u8> = (0u8..=255).collect();
    let text = to_hex(&bytes);
    assert_eq!(text.len(), 512);
    assert_eq!(from_hex(&text), Ok(bytes));
}

#[test]
fn a_key_of_31_bytes_is_malformed() {
    let params = CurveParams::new();
    let text = "01".repeat(31);
    assert!(PackedPublicKey::deserialize(&text, &params) == Err(TxError::MalformedEncoding));
    assert!(PackedPublicKey::from_bytes(&[1; 31], &params) == Err(TxError::MalformedEncoding));
}

#[test]
fn a_key_of_another_length_or_of_other_characters_is_malformed() {
    let params = CurveParams::new();
    let long = "01".repeat(33);
    assert!(PackedPublicKey::deserialize(&long, &params) == Err(TxError::MalformedEncoding));
    assert!(PackedPublicKey::deserialize("", &params) == Err(TxError::MalformedEncoding));
    let odd = &NEUTRAL[1..];
    assert!(PackedPublicKey::deserialize(odd, &params) == Err(TxError::MalformedEncoding));
    let other = NEUTRAL.replace('1', "x");
    assert!(PackedPublicKey::deserialize(&other, &params) == Err(TxError::MalformedEncoding));
}

#[test]
fn bytes_that_name_no_point_are_an_invalid_curve_element() {
    let params = CurveParams::new();
    // not even an element of the base field
    assert!(PackedPublicKey::from_bytes(&[0xff; 32], &params) == Err(TxError::InvalidCurveElement));
    let text = "ff".repeat(32);
    assert!(PackedPublicKey::deserialize(&text, &params) == Err(TxError::InvalidCurveElement));
    // among small second coordinates some lie on the curve and some do not
    let mut on_curve = 0;
    let mut off_curve = 0;
    for y in 0u8..40 {
        let mut bytes = [0u8; 32];
        bytes[0] = y;
        match PackedPublicKey::from_bytes(&bytes, &params) {
            Ok(key) => {
                on_curve += 1;
                assert!(PackedPublicKey::from_bytes(&key.serialize_packed(), &params) == Ok(key));
            }
            Err(e) => {
                off_curve += 1;
                assert_eq!(e, TxError::InvalidCurveElement);
            }
        }
    }
    assert!(on_curve > 0);
    assert!(off_curve > 0);
}

#[test]
fn a_key_survives_the_round_trip_through_text() {
    let params = CurveParams::new();
    let table = AltJubjubBn256::new();
    for secret in ["1", "2", "987654321", "31415926535897932384626433832795"] {
        let bytes = key_bytes(secret, &table);
        let key = PackedPublicKey::from_bytes(&bytes, &params).unwrap();
        assert_eq!(key.serialize_packed(), bytes.to_vec());
        assert_eq!(key.as_bytes(), &bytes[..]);
        let text = key.serialize();
        assert_eq!(text, to_hex(&bytes));
        assert_eq!(text.len(), 64);
        assert!(PackedPublicKey::deserialize(&text, &params) == Ok(key));
        assert!(PackedPublicKey::deserialize(&text.to_uppercase(), &params) == Ok(key));
    }
}

#[test]
fn different_keys_have_different_encodings() {
    let params = CurveParams::new();
    let table = AltJubjubBn256::new();
    let first = PackedPublicKey::from_bytes(&key_bytes("1", &table), &params).unwrap();
    let second = PackedPublicKey::from_bytes(&key_bytes("2", &table), &params).unwrap();
    assert!(first != second);
    assert_ne!(first.serialize(), second.serialize());
}

#[test]
fn the_neutral_point_is_a_key_in_its_written_form() {
    let params = CurveParams::new();
    let key = PackedPublicKey::deserialize(NEUTRAL, &params).unwrap();
    assert_eq!(key.serialize(), NEUTRAL);
    // with the sign bit set the same point is read, and written without it
    let mut flagged = from_hex(NEUTRAL).unwrap();
    flagged[31] = 0x80;
    let read = PackedPublicKey::from_bytes(&flagged, &params).unwrap();
    assert!(read == key);
    assert_eq!(read.serialize(), NEUTRAL);
}

#[test]
fn a_signature_of_another_length_is_malformed() {
    let params = CurveParams::new();
    let short = NEUTRAL.to_string() + &"00".repeat(31);
    assert!(PackedSignature::deserialize(&short, &params) == Err(TxError::MalformedEncoding));
    let long = NEUTRAL.to_string() + &"00".repeat(33);
    assert!(PackedSignature::deserialize(&long, &params) == Err(TxError::MalformedEncoding));
    assert!(PackedSignature::deserialize(NEUTRAL, &params) == Err(TxError::MalformedEncoding));
    assert!(PackedSignature::deserialize("", &params) == Err(TxError::MalformedEncoding));
    assert!(PackedSignature::deserialize("signature", &params) == Err(TxError::MalformedEncoding));
    assert!(PackedSignature::from_bytes(&[0; 63], &params) == Err(TxError::MalformedEncoding));
}

#[test]
fn a_signature_needs_a_point_of_the_curve() {
    let params = CurveParams::new();
    let text = "ff".repeat(32) + &"00".repeat(32);
    assert!(PackedSignature::deserialize(&text, &params) == Err(TxError::InvalidCurveElement));
}

#[test]
fn a_signature_needs_a_scalar_below_the_modulus() {
    let params = CurveParams::new();
    let at_modulus = NEUTRAL.to_string() + MODULUS_LE;
    assert!(
        PackedSignature::deserialize(&at_modulus, &params) == Err(TxError::InvalidCurveElement)
    );
    let all_ones = NEUTRAL.to_string() + &"ff".repeat(32);
    assert!(PackedSignature::deserialize(&all_ones, &params) == Err(TxError::InvalidCurveElement));
    let largest = NEUTRAL.to_string() + LARGEST_SCALAR_LE;
    let signature = PackedSignature::deserialize(&largest, &params).unwrap();
    assert_eq!(signature.serialize(), largest);
}

#[test]
fn a_signature_survives_the_round_trip_through_text() {
    let params = CurveParams::new();
    let table = AltJubjubBn256::new();
    let bytes = signature_bytes("987654321", b"a message", &table);
    let signature = PackedSignature::from_bytes(&bytes, &params).unwrap();
    assert_eq!(signature.serialize_packed(), bytes.to_vec());
    assert_eq!(signature.as_bytes(), &bytes[..]);
    let text = signature.serialize();
    assert_eq!(text, to_hex(&bytes));
    assert_eq!(text.len(), 128);
    assert!(PackedSignature::deserialize(&text, &params) == Ok(signature));
    assert!(PackedSignature::deserialize(&text.to_uppercase(), &params) == Ok(signature));
}

#[test]
fn a_signature_is_shown_in_its_text_form() {
    let params = CurveParams::new();
    let signature = TxSignature {
        pub_key: PackedPublicKey::deserialize(NEUTRAL, &params).unwrap(),
        sign: PackedSignature::deserialize(&(NEUTRAL.to_string() + LARGEST_SCALAR_LE), &params)
            .unwrap(),
    };
    assert_eq!(
        signature.render(),
        format!("{{ pub_key: {}, sign: {}{} }}", NEUTRAL, NEUTRAL, LARGEST_SCALAR_LE)
    );
}
