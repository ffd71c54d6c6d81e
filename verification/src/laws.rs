use crate::digest::sha256_digest;
use crate::signature::MusigVerdict;
use crate::transaction::{Close, DerivedAddress, FranklinTx, Transfer, Withdraw};
use crate::wire::{be_bytes, lemma_be_bytes_injective, lemma_be_bytes_len, lemma_pow256_widths};
use vstd::prelude::*;

verus! {

/// Two concatenations that agree, with right parts of one length, agree
/// part by part.
pub proof fn lemma_concat_parts<T>(left_a: Seq<T>, right_a: Seq<T>, left_b: Seq<T>, right_b: Seq<T>)
    requires
        left_a + right_a == left_b + right_b,
        right_a.len() == right_b.len(),
    ensures
        left_a == left_b,
        right_a == right_b,
{
    let whole_a = left_a + right_a;
    let whole_b = left_b + right_b;
    assert(whole_a.len() == left_a.len() + right_a.len());
    assert(whole_b.len() == left_b.len() + right_b.len());
    let cut = left_a.len() as int;
    assert(left_a =~= whole_a.subrange(0, cut));
    assert(left_b =~= whole_b.subrange(0, cut));
    assert(right_a =~= whole_a.subrange(cut, whole_a.len() as int));
    assert(right_b =~= whole_b.subrange(cut, whole_b.len() as int));
}

/// The fields of a transfer that its signature covers.
pub open spec fn same_transfer_fields(a: Transfer, b: Transfer) -> bool {
    &&& a.from == b.from
    &&& a.to == b.to
    &&& a.token == b.token
    &&& a.amount == b.amount
    &&& a.fee == b.fee
    &&& a.nonce == b.nonce
}

/// The fields of a withdrawal that its signature covers.
pub open spec fn same_withdraw_fields(a: Withdraw, b: Withdraw) -> bool {
    &&& a.account == b.account
    &&& a.eth_address == b.eth_address
    &&& a.token == b.token
    &&& a.amount == b.amount
    &&& a.fee == b.fee
    &&& a.nonce == b.nonce
}

/// The fields of a closure that its signature covers.
pub open spec fn same_close_fields(a: Close, b: Close) -> bool {
    &&& a.account == b.account
    &&& a.nonce == b.nonce
}

/// The encoding of a transfer is injective: two transfers have the same
/// bytes exactly when they agree on every field but the signature.
pub proof fn lemma_transfer_encoding_injective(a: Transfer, b: Transfer)
    ensures
        a.encoding() == b.encoding() <==> same_transfer_fields(a, b),
{
    if a.encoding() == b.encoding() {
        lemma_pow256_widths();
        lemma_be_bytes_len(a.token as nat, 2);
        lemma_be_bytes_len(b.token as nat, 2);
        lemma_be_bytes_len(a.nonce as nat, 4);
        lemma_be_bytes_len(b.nonce as nat, 4);
        let a1 = seq![crate::transaction::TRANSFER_TAG] + a.from@;
        let b1 = seq![crate::transaction::TRANSFER_TAG] + b.from@;
        let a2 = a1 + a.to@;
        let b2 = b1 + b.to@;
        let a3 = a2 + be_bytes(a.token as nat, 2);
        let b3 = b2 + be_bytes(b.token as nat, 2);
        let a4 = a3 + a.amount@;
        let b4 = b3 + b.amount@;
        let a5 = a4 + a.fee@;
        let b5 = b4 + b.fee@;
        lemma_concat_parts(a5, be_bytes(a.nonce as nat, 4), b5, be_bytes(b.nonce as nat, 4));
        lemma_concat_parts(a4, a.fee@, b4, b.fee@);
        lemma_concat_parts(a3, a.amount@, b3, b.amount@);
        lemma_concat_parts(a2, be_bytes(a.token as nat, 2), b2, be_bytes(b.token as nat, 2));
        lemma_concat_parts(a1, a.to@, b1, b.to@);
        lemma_concat_parts(
            seq![crate::transaction::TRANSFER_TAG],
            a.from@,
            seq![crate::transaction::TRANSFER_TAG],
            b.from@,
        );
        lemma_be_bytes_injective(a.token as nat, b.token as nat, 2);
        lemma_be_bytes_injective(a.nonce as nat, b.nonce as nat, 4);
        assert(a.from.data =~= b.from.data);
        assert(a.to.data =~= b.to.data);
        assert(a.amount.data =~= b.amount.data);
        assert(a.fee.data =~= b.fee.data);
    }
}

/// The encoding of a withdrawal is injective: two withdrawals have the same
/// bytes exactly when they agree on every field but the signature.
pub proof fn lemma_withdraw_encoding_injective(a: Withdraw, b: Withdraw)
    ensures
        a.encoding() == b.encoding() <==> same_withdraw_fields(a, b),
{
    if a.encoding() == b.encoding() {
        lemma_pow256_widths();
        lemma_be_bytes_len(a.token as nat, 2);
        lemma_be_bytes_len(b.token as nat, 2);
        lemma_be_bytes_len(a.amount as nat, 16);
        lemma_be_bytes_len(b.amount as nat, 16);
        lemma_be_bytes_len(a.nonce as nat, 4);
        lemma_be_bytes_len(b.nonce as nat, 4);
        let a1 = seq![crate::transaction::WITHDRAW_TAG] + a.account@;
        let b1 = seq![crate::transaction::WITHDRAW_TAG] + b.account@;
        let a2 = a1 + a.eth_address@;
        let b2 = b1 + b.eth_address@;
        let a3 = a2 + be_bytes(a.token as nat, 2);
        let b3 = b2 + be_bytes(b.token as nat, 2);
        let a4 = a3 + be_bytes(a.amount as nat, 16);
        let b4 = b3 + be_bytes(b.amount as nat, 16);
        let a5 = a4 + a.fee@;
        let b5 = b4 + b.fee@;
        lemma_concat_parts(a5, be_bytes(a.nonce as nat, 4), b5, be_bytes(b.nonce as nat, 4));
        lemma_concat_parts(a4, a.fee@, b4, b.fee@);
        lemma_concat_parts(a3, be_bytes(a.amount as nat, 16), b3, be_bytes(b.amount as nat, 16));
        lemma_concat_parts(a2, be_bytes(a.token as nat, 2), b2, be_bytes(b.token as nat, 2));
        lemma_concat_parts(a1, a.eth_address@, b1, b.eth_address@);
        lemma_concat_parts(
            seq![crate::transaction::WITHDRAW_TAG],
            a.account@,
            seq![crate::transaction::WITHDRAW_TAG],
            b.account@,
        );
        lemma_be_bytes_injective(a.token as nat, b.token as nat, 2);
        lemma_be_bytes_injective(a.amount as nat, b.amount as nat, 16);
        lemma_be_bytes_injective(a.nonce as nat, b.nonce as nat, 4);
        assert(a.account.data =~= b.account.data);
        assert(a.eth_address.data =~= b.eth_address.data);
        assert(a.fee.data =~= b.fee.data);
    }
}

/// The encoding of a closure is injective: two closures have the same bytes
/// exactly when they agree on the account and the nonce.
pub proof fn lemma_close_encoding_injective(a: Close, b: Close)
    ensures
        a.encoding() == b.encoding() <==> same_close_fields(a, b),
{
    if a.encoding() == b.encoding() {
        lemma_pow256_widths();
        lemma_be_bytes_len(a.nonce as nat, 4);
        lemma_be_bytes_len(b.nonce as nat, 4);
        let a1 = seq![crate::transaction::CLOSE_TAG] + a.account@;
        let b1 = seq![crate::transaction::CLOSE_TAG] + b.account@;
        lemma_concat_parts(a1, be_bytes(a.nonce as nat, 4), b1, be_bytes(b.nonce as nat, 4));
        lemma_concat_parts(
            seq![crate::transaction::CLOSE_TAG],
            a.account@,
            seq![crate::transaction::CLOSE_TAG],
            b.account@,
        );
        lemma_be_bytes_injective(a.nonce as nat, b.nonce as nat, 4);
        assert(a.account.data =~= b.account.data);
    }
}

/// Every encoding opens with the discriminant of its kind: 5 for a
/// transfer, 3 for a withdrawal, 4 for a closure.
pub proof fn lemma_encoding_opens_with_discriminant(tx: FranklinTx)
    ensures
        tx.encoding().len() > 0,
        tx.encoding()[0] == tx.kind().spec_discriminant(),
        tx is Transfer ==> tx.encoding()[0] == 5,
        tx is Withdraw ==> tx.encoding()[0] == 3,
        tx is Close ==> tx.encoding()[0] == 4,
{
}

/// Transactions of different kinds never have the same encoding.
pub proof fn lemma_kinds_never_collide(a: FranklinTx, b: FranklinTx)
    requires
        a.kind() != b.kind(),
    ensures
        a.encoding() != b.encoding(),
{
    lemma_encoding_opens_with_discriminant(a);
    lemma_encoding_opens_with_discriminant(b);
}

/// Encoding and hashing are functions of the transaction: equal
/// transactions have equal bytes and equal digests.
pub proof fn lemma_encoding_deterministic(a: FranklinTx, b: FranklinTx)
    requires
        a == b,
    ensures
        a.encoding() == b.encoding(),
        sha256_digest(a.encoding()) == sha256_digest(b.encoding()),
{
}

/// A signature stands exactly when both outside checks pass for this very
/// transaction: the algebraic check accepted the embedded signature over
/// the canonical bytes, and the embedded key derives to the owner.
pub proof fn lemma_signature_stands_iff_both_checks_pass(
    tx: FranklinTx,
    verdict: MusigVerdict,
    key_owner: DerivedAddress,
)
    ensures
        tx.signature_stands(verdict, key_owner) <==> (verdict.accepted && verdict.covers(
            tx.carried_signature(),
            tx.encoding(),
        ) && key_owner.pub_key@ == tx.carried_signature().pub_key@ && key_owner.address@
            == tx.owner()@),
{
}

/// The outcome of a check counts for one encoding only: where it makes one
/// transaction valid, it makes none valid that has other bytes.
pub proof fn lemma_verdict_counts_for_one_encoding(
    signed: FranklinTx,
    other: FranklinTx,
    verdict: MusigVerdict,
    key_owner: DerivedAddress,
)
    requires
        signed.signature_stands(verdict, key_owner),
        signed.encoding() != other.encoding(),
    ensures
        !other.signature_stands(verdict, key_owner),
{
}

/// Changing any signed field of a transfer after the check, without a new
/// check, makes it invalid.
pub proof fn lemma_changed_transfer_is_refused(
    signed: Transfer,
    changed: Transfer,
    verdict: MusigVerdict,
    key_owner: DerivedAddress,
)
    requires
        signed.signature_stands(verdict, key_owner),
        !same_transfer_fields(signed, changed),
    ensures
        !changed.signature_stands(verdict, key_owner),
{
    lemma_transfer_encoding_injective(signed, changed);
}

/// Changing any signed field of a withdrawal after the check, without a new
/// check, makes it invalid.
pub proof fn lemma_changed_withdraw_is_refused(
    signed: Withdraw,
    changed: Withdraw,
    verdict: MusigVerdict,
    key_owner: DerivedAddress,
)
    requires
        signed.signature_stands(verdict, key_owner),
        !same_withdraw_fields(signed, changed),
    ensures
        !changed.signature_stands(verdict, key_owner),
{
    lemma_withdraw_encoding_injective(signed, changed);
}

/// Changing the account or the nonce of a closure after the check, without
/// a new check, makes it invalid.
pub proof fn lemma_changed_close_is_refused(
    signed: Close,
    changed: Close,
    verdict: MusigVerdict,
    key_owner: DerivedAddress,
)
    requires
        signed.signature_stands(verdict, key_owner),
        !same_close_fields(signed, changed),
    ensures
        !changed.signature_stands(verdict, key_owner),
{
    lemma_close_encoding_injective(signed, changed);
}

} // verus!
