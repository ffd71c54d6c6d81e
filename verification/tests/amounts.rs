use franklin_tx::account::{AccountAddress, EthAddress, PackedFee};
use franklin_tx::amount::Amount;
use franklin_tx::curve::CurveParams;
use franklin_tx::error::TxError;
use franklin_tx::packed::{PackedPublicKey, PackedSignature};
use franklin_tx::signature::TxSignature;
use franklin_tx::transaction::Withdraw;

fn decimal(magnitude: &[u8], scale: i64) -> Amount {
    Amount { negative: false, magnitude: magnitude.to_vec(), scale }
}

#[test]
fn a_whole_number_converts_to_itself() {
    assert_eq!(decimal(&[42], 0).to_integer(), Ok(42));
    assert_eq!(decimal(&[1, 0], 0).to_integer(), Ok(256));
    assert_eq!(decimal(&[0, 0, 1, 0], 0).to_integer(), Ok(256));
}

#[test]
fn zero_converts_whatever_its_scale_or_sign() {
    assert_eq!(decimal(&[], 0).to_integer(), Ok(0));
    assert_eq!(decimal(&[0, 0], 5).to_integer(), Ok(0));
    assert_eq!(decimal(&[0], -5).to_integer(), Ok(0));
    assert_eq!(decimal(&[0], i64::MIN).to_integer(), Ok(0));
    assert_eq!(decimal(&[0], i64::MAX).to_integer(), Ok(0));
    assert_eq!(Amount { negative: true, magnitude: vec![0], scale: 0 }.to_integer(), Ok(0));
}

#[test]
fn trailing_zeros_after_the_point_are_dropped() {
    // 15.0
    assert_eq!(decimal(&[150], 1).to_integer(), Ok(15));
    // 3.000
    assert_eq!(decimal(&[0x0b, 0xb8], 3).to_integer(), Ok(3));
}

#[test]
fn a_fractional_part_is_out_of_range() {
    // 1.5
    assert_eq!(decimal(&[15], 1).to_integer(), Err(TxError::AmountOutOfRange));
    // 0.01
    assert_eq!(decimal(&[1], 2).to_integer(), Err(TxError::AmountOutOfRange));
    // 1.50 is still 1.5
    assert_eq!(decimal(&[150], 2).to_integer(), Err(TxError::AmountOutOfRange));
    assert_eq!(decimal(&[1], i64::MAX).to_integer(), Err(TxError::AmountOutOfRange));
}

#[test]
fn a_negative_scale_appends_zeros() {
    assert_eq!(decimal(&[7], -2).to_integer(), Ok(700));
    assert_eq!(
        decimal(&[1], -38).to_integer(),
        Ok(100_000_000_000_000_000_000_000_000_000_000_000_000)
    );
}

#[test]
fn a_negative_amount_is_out_of_range() {
    let amount = Amount { negative: true, magnitude: vec![1], scale: 0 };
    assert_eq!(amount.to_integer(), Err(TxError::AmountOutOfRange));
}

#[test]
fn the_largest_amount_still_fits() {
    assert_eq!(decimal(&[0xff; 16], 0).to_integer(), Ok(u128::MAX));
    // u128::MAX written with one zero after the point
    let tenfold = [0x09, 0xff, 0xff, 0xff, 0xff, 0xff, 0xff, 0xff, 0xff, 0xff, 0xff, 0xff, 0xff,
        0xff, 0xff, 0xff, 0xf6];
    assert_eq!(decimal(&tenfold, 1).to_integer(), Ok(u128::MAX));
}

#[test]
fn an_amount_beyond_128_bits_is_out_of_range() {
    let mut beyond = vec![1u8];
    beyond.extend([0u8; 16]);
    assert_eq!(decimal(&beyond, 0).to_integer(), Err(TxError::AmountOutOfRange));
    assert_eq!(decimal(&[1], -39).to_integer(), Err(TxError::AmountOutOfRange));
    assert_eq!(decimal(&[0xff; 16], -1).to_integer(), Err(TxError::AmountOutOfRange));
    assert_eq!(decimal(&[1], i64::MIN).to_integer(), Err(TxError::AmountOutOfRange));
    // 10^39 with no zeros to drop
    let large = [0x02, 0xf0, 0x50, 0xfe, 0x93, 0x89, 0x43, 0xac, 0xc4, 0x5f, 0x65, 0x56, 0x80, 0,
        0, 0, 0];
    assert_eq!(decimal(&large, 0).to_integer(), Err(TxError::AmountOutOfRange));
    // and the same digits read as 10^38
    assert_eq!(
        decimal(&large, 1).to_integer(),
        Ok(100_000_000_000_000_000_000_000_000_000_000_000_000)
    );
}

#[test]
fn a_withdrawal_is_built_only_from_a_whole_amount() {
    let params = CurveParams::new();
    let mut point = [0u8; 32];
    point[0] = 1;
    let mut pair = [0u8; 64];
    pair[0] = 1;
    let signature = TxSignature {
        pub_key: PackedPublicKey::from_bytes(&point, &params).unwrap(),
        sign: PackedSignature::from_bytes(&pair, &params).unwrap(),
    };
    let account = AccountAddress { data: [1; 27] };
    let eth_address = EthAddress { data: [2; 20] };
    let fee = PackedFee { data: [3] };
    let made = Withdraw::new(account, eth_address, 4, &decimal(&[150], 1), fee, 5, signature);
    let expected =
        Withdraw { account, eth_address, token: 4, amount: 15, fee, nonce: 5, signature };
    assert!(made == Ok(expected));
    let refused = Withdraw::new(account, eth_address, 4, &decimal(&[15], 1), fee, 5, signature);
    assert!(refused == Err(TxError::AmountOutOfRange));
}
