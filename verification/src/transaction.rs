use crate::account::{AccountAddress, EthAddress, Nonce, PackedAmount, PackedFee, TokenId};
use crate::amount::Amount;
use crate::error::TxError;
use crate::digest::{sha256_digest, sha256_of, DIGEST_LEN};
use crate::packed::PackedPublicKey;
use crate::signature::{MusigVerdict, TxSignature};
use crate::wire::{append_bytes, be_bytes, be_encode, lemma_be_bytes_len};
use vstd::prelude::*;

verus! {

/// First byte of the canonical encoding of a transfer.
pub const TRANSFER_TAG: u8 = 5;

/// First byte of the canonical encoding of a withdrawal.
pub const WITHDRAW_TAG: u8 = 3;

/// First byte of the canonical encoding of an account closure.
pub const CLOSE_TAG: u8 = 4;

/// Length of the canonical encoding of a transfer.
pub const TRANSFER_LEN: usize = 65;

/// Length of the canonical encoding of a withdrawal.
pub const WITHDRAW_LEN: usize = 71;

/// Length of the canonical encoding of an account closure.
pub const CLOSE_LEN: usize = 32;

/// The kinds of transaction.
#[derive(Clone, Copy, Debug, PartialEq, Eq, Structural)]
pub enum TxType {
    Transfer,
    Withdraw,
    Close,
}

impl TxType {
    /// The byte that opens the canonical encoding of this kind.
    pub open spec fn spec_discriminant(&self) -> u8 {
        match self {
            TxType::Transfer => TRANSFER_TAG,
            TxType::Withdraw => WITHDRAW_TAG,
            TxType::Close => CLOSE_TAG,
        }
    }

    /// The byte that opens the canonical encoding of this kind. It is part
    /// of what is signed, and is not the label of the transport format.
    pub fn discriminant(&self) -> (tag: u8)
        ensures
            tag == self.spec_discriminant(),
    {
        match self {
            TxType::Transfer => TRANSFER_TAG,
            TxType::Withdraw => WITHDRAW_TAG,
            TxType::Close => CLOSE_TAG,
        }
    }

    /// The label that tells the kinds apart in the transport format. It is
    /// never signed.
    pub fn wire_tag(&self) -> (label: &'static str)
        ensures
            label@ == match self {
                TxType::Transfer => "Transfer"@,
                TxType::Withdraw => "Withdraw"@,
                TxType::Close => "Close"@,
            },
    {
        match self {
            TxType::Transfer => "Transfer",
            TxType::Withdraw => "Withdraw",
            TxType::Close => "Close",
        }
    }
}

/// An address together with the key that it was derived from. The
/// derivation is the deployment's; the library compares its result.
#[derive(Clone, Copy, PartialEq, Eq)]
pub struct DerivedAddress {
    pub pub_key: PackedPublicKey,
    pub address: AccountAddress,
}

/// Whether a signature stands for a transaction with the given canonical
/// bytes and owner: the algebraic check accepted the signature over exactly
/// these bytes, and the address derived from the signing key is the owner.
pub open spec fn signature_binds(
    signature: TxSignature,
    message: Seq<u8>,
    owner: AccountAddress,
    verdict: MusigVerdict,
    key_owner: DerivedAddress,
) -> bool {
    &&& verdict.accepts(signature, message)
    &&& key_owner.pub_key@ == signature.pub_key@
    &&& key_owner.address@ == owner@
}

/// The check that the three kinds share.
fn binds(
    signature: &TxSignature,
    message: &[u8],
    owner: &AccountAddress,
    verdict: &MusigVerdict,
    key_owner: &DerivedAddress,
) -> (valid: bool)
    ensures
        valid == signature_binds(*signature, message@, *owner, *verdict, *key_owner),
{
    match signature.verify_musig_pedersen(message, verdict) {
        Some(pub_key) => key_owner.pub_key == pub_key && key_owner.address == *owner,
        None => false,
    }
}

/// Moves funds from one account to another.
#[derive(Clone, Copy, PartialEq, Eq)]
pub struct Transfer {
    pub from: AccountAddress,
    pub to: AccountAddress,
    pub token: TokenId,
    pub amount: PackedAmount,
    pub fee: PackedFee,
    pub nonce: Nonce,
    pub signature: TxSignature,
}

impl Transfer {
    /// The canonical encoding: the tag, sender, recipient, token, compact
    /// amount, compact fee and nonce, integers most significant byte first.
    pub open spec fn encoding(&self) -> Seq<u8> {
        seq![TRANSFER_TAG] + self.from@ + self.to@ + be_bytes(self.token as nat, 2) + self.amount@
            + self.fee@ + be_bytes(self.nonce as nat, 4)
    }

    /// The bytes that are signed and hashed.
    pub fn get_bytes(&self) -> (bytes: Vec<u8>)
        ensures
            bytes@ == self.encoding(),
            bytes@.len() == TRANSFER_LEN,
            bytes@[0] == TRANSFER_TAG,
    {
        let mut out: Vec<u8> = Vec::new();
        out.push(TRANSFER_TAG);
        append_bytes(&mut out, self.from.data.as_slice());
        append_bytes(&mut out, self.to.data.as_slice());
        append_bytes(&mut out, be_encode(self.token as u128, 2).as_slice());
        append_bytes(&mut out, self.amount.data.as_slice());
        append_bytes(&mut out, self.fee.data.as_slice());
        append_bytes(&mut out, be_encode(self.nonce as u128, 4).as_slice());
        proof {
            lemma_be_bytes_len(self.token as nat, 2);
            lemma_be_bytes_len(self.nonce as nat, 4);
            assert(out@ =~= self.encoding());
        }
        out
    }

    /// The signature stands for this transaction under the given outcomes
    /// of the two outside checks.
    pub open spec fn signature_stands(
        &self,
        verdict: MusigVerdict,
        key_owner: DerivedAddress,
    ) -> bool {
        signature_binds(self.signature, self.encoding(), self.from, verdict, key_owner)
    }

    /// Whether the signature stands for this transfer: true exactly when
    /// the Pedersen-challenge check accepted the embedded signature over
    /// `get_bytes()`, and the address derived from the embedded key is the
    /// sender.
    ///
    /// `verdict` is the outcome of that check and `key_owner` the derived
    /// address; both are made outside and name what they were made on. A
    /// failure of either part gives `false`, with no further reason.
    pub fn verify_signature(&self, verdict: &MusigVerdict, key_owner: &DerivedAddress) -> (valid:
        bool)
        ensures
            valid == self.signature_stands(*verdict, *key_owner),
    {
        let bytes = self.get_bytes();
        binds(&self.signature, bytes.as_slice(), &self.from, verdict, key_owner)
    }
}

/// Pays funds of an account out to an address of the base chain.
#[derive(Clone, Copy, PartialEq, Eq)]
pub struct Withdraw {
    pub account: AccountAddress,
    pub eth_address: EthAddress,
    pub token: TokenId,
    /// The amount in the token's smallest unit. It is encoded in full and
    /// never compacted.
    pub amount: u128,
    pub fee: PackedFee,
    pub nonce: Nonce,
    pub signature: TxSignature,
}

impl Withdraw {
    /// A withdrawal of a decimal amount. The amount must be a whole number
    /// of the token's smallest unit that fits in 128 bits: anything else is
    /// `AmountOutOfRange`, and no withdrawal is built.
    pub fn new(
        account: AccountAddress,
        eth_address: EthAddress,
        token: TokenId,
        amount: &Amount,
        fee: PackedFee,
        nonce: Nonce,
        signature: TxSignature,
    ) -> (made: Result<Self, TxError>)
        ensures
            match made {
                Ok(tx) => amount.withdrawal_amount() == Ok::<u128, TxError>(tx.amount) && tx == (
                Withdraw { account, eth_address, token, amount: tx.amount, fee, nonce, signature }),
                Err(e) => amount.withdrawal_amount() == Err::<u128, TxError>(e),
            },
    {
        match amount.to_integer() {
            Ok(amount) => Ok(
                Withdraw { account, eth_address, token, amount, fee, nonce, signature },
            ),
            Err(e) => Err(e),
        }
    }

    /// The canonical encoding: the tag, account, target address, token,
    /// amount in 16 bytes, compact fee and nonce, integers most significant
    /// byte first.
    pub open spec fn encoding(&self) -> Seq<u8> {
        seq![WITHDRAW_TAG] + self.account@ + self.eth_address@ + be_bytes(self.token as nat, 2)
            + be_bytes(self.amount as nat, 16) + self.fee@ + be_bytes(self.nonce as nat, 4)
    }

    /// The bytes that are signed and hashed.
    pub fn get_bytes(&self) -> (bytes: Vec<u8>)
        ensures
            bytes@ == self.encoding(),
            bytes@.len() == WITHDRAW_LEN,
            bytes@[0] == WITHDRAW_TAG,
    {
        let mut out: Vec<u8> = Vec::new();
        out.push(WITHDRAW_TAG);
        append_bytes(&mut out, self.account.data.as_slice());
        append_bytes(&mut out, self.eth_address.data.as_slice());
        append_bytes(&mut out, be_encode(self.token as u128, 2).as_slice());
        append_bytes(&mut out, be_encode(self.amount, 16).as_slice());
        append_bytes(&mut out, self.fee.data.as_slice());
        append_bytes(&mut out, be_encode(self.nonce as u128, 4).as_slice());
        proof {
            lemma_be_bytes_len(self.token as nat, 2);
            lemma_be_bytes_len(self.amount as nat, 16);
            lemma_be_bytes_len(self.nonce as nat, 4);
            assert(out@ =~= self.encoding());
        }
        out
    }

    /// The signature stands for this transaction under the given outcomes
    /// of the two outside checks.
    pub open spec fn signature_stands(
        &self,
        verdict: MusigVerdict,
        key_owner: DerivedAddress,
    ) -> bool {
        signature_binds(self.signature, self.encoding(), self.account, verdict, key_owner)
    }

    /// Whether the signature stands for this withdrawal; see
    /// `Transfer::verify_signature`.
    pub fn verify_signature(&self, verdict: &MusigVerdict, key_owner: &DerivedAddress) -> (valid:
        bool)
        ensures
            valid == self.signature_stands(*verdict, *key_owner),
    {
        let bytes = self.get_bytes();
        binds(&self.signature, bytes.as_slice(), &self.account, verdict, key_owner)
    }
}

/// Closes an account.
#[derive(Clone, Copy, PartialEq, Eq)]
pub struct Close {
    pub account: AccountAddress,
    pub nonce: Nonce,
    pub signature: TxSignature,
}

impl Close {
    /// The canonical encoding: the tag, the account and the nonce, most
    /// significant byte first.
    pub open spec fn encoding(&self) -> Seq<u8> {
        seq![CLOSE_TAG] + self.account@ + be_bytes(self.nonce as nat, 4)
    }

    /// The bytes that are signed and hashed.
    pub fn get_bytes(&self) -> (bytes: Vec<u8>)
        ensures
            bytes@ == self.encoding(),
            bytes@.len() == CLOSE_LEN,
            bytes@[0] == CLOSE_TAG,
    {
        let mut out: Vec<u8> = Vec::new();
        out.push(CLOSE_TAG);
        append_bytes(&mut out, self.account.data.as_slice());
        append_bytes(&mut out, be_encode(self.nonce as u128, 4).as_slice());
        proof {
            lemma_be_bytes_len(self.nonce as nat, 4);
            assert(out@ =~= self.encoding());
        }
        out
    }

    /// The signature stands for this transaction under the given outcomes
    /// of the two outside checks.
    pub open spec fn signature_stands(
        &self,
        verdict: MusigVerdict,
        key_owner: DerivedAddress,
    ) -> bool {
        signature_binds(self.signature, self.encoding(), self.account, verdict, key_owner)
    }

    /// Whether the signature stands for this closure; see
    /// `Transfer::verify_signature`.
    pub fn verify_signature(&self, verdict: &MusigVerdict, key_owner: &DerivedAddress) -> (valid:
        bool)
        ensures
            valid == self.signature_stands(*verdict, *key_owner),
    {
        let bytes = self.get_bytes();
        binds(&self.signature, bytes.as_slice(), &self.account, verdict, key_owner)
    }
}

/// A signed transaction of any kind.
#[derive(Clone, Copy, PartialEq, Eq)]
pub enum FranklinTx {
    Transfer(Transfer),
    Withdraw(Withdraw),
    Close(Close),
}

impl FranklinTx {
    /// The kind of this transaction.
    pub open spec fn kind(&self) -> TxType {
        match self {
            FranklinTx::Transfer(_) => TxType::Transfer,
            FranklinTx::Withdraw(_) => TxType::Withdraw,
            FranklinTx::Close(_) => TxType::Close,
        }
    }

    /// The canonical encoding of the transaction inside.
    pub open spec fn encoding(&self) -> Seq<u8> {
        match self {
            FranklinTx::Transfer(tx) => tx.encoding(),
            FranklinTx::Withdraw(tx) => tx.encoding(),
            FranklinTx::Close(tx) => tx.encoding(),
        }
    }

    /// The account that owns the transaction: the sender of a transfer, the
    /// account of a withdrawal or closure.
    pub open spec fn owner(&self) -> AccountAddress {
        match self {
            FranklinTx::Transfer(tx) => tx.from,
            FranklinTx::Withdraw(tx) => tx.account,
            FranklinTx::Close(tx) => tx.account,
        }
    }

    /// The signature that the transaction carries.
    pub open spec fn carried_signature(&self) -> TxSignature {
        match self {
            FranklinTx::Transfer(tx) => tx.signature,
            FranklinTx::Withdraw(tx) => tx.signature,
            FranklinTx::Close(tx) => tx.signature,
        }
    }

    /// The signature stands for the transaction inside under the given
    /// outcomes of the two outside checks.
    pub open spec fn signature_stands(
        &self,
        verdict: MusigVerdict,
        key_owner: DerivedAddress,
    ) -> bool {
        signature_binds(self.carried_signature(), self.encoding(), self.owner(), verdict, key_owner)
    }

    /// The nonce that the transaction declares.
    pub open spec fn declared_nonce(&self) -> Nonce {
        match self {
            FranklinTx::Transfer(tx) => tx.nonce,
            FranklinTx::Withdraw(tx) => tx.nonce,
            FranklinTx::Close(tx) => tx.nonce,
        }
    }

    /// The kind of this transaction.
    pub fn tx_type(&self) -> (kind: TxType)
        ensures
            kind == self.kind(),
    {
        match self {
            FranklinTx::Transfer(_) => TxType::Transfer,
            FranklinTx::Withdraw(_) => TxType::Withdraw,
            FranklinTx::Close(_) => TxType::Close,
        }
    }

    /// The identifier of the transaction: the SHA-256 digest of its
    /// canonical encoding.
    pub fn hash(&self) -> (digest: Vec<u8>)
        ensures
            digest@ == sha256_digest(self.encoding()),
            digest@.len() == DIGEST_LEN,
    {
        let bytes = match self {
            FranklinTx::Transfer(tx) => tx.get_bytes(),
            FranklinTx::Withdraw(tx) => tx.get_bytes(),
            FranklinTx::Close(tx) => tx.get_bytes(),
        };
        sha256_of(bytes.as_slice())
    }

    /// The account that owns the transaction.
    pub fn account(&self) -> (owner: AccountAddress)
        ensures
            owner == self.owner(),
    {
        match self {
            FranklinTx::Transfer(tx) => tx.from,
            FranklinTx::Withdraw(tx) => tx.account,
            FranklinTx::Close(tx) => tx.account,
        }
    }

    /// The nonce that the transaction declares. Whether it is the next one
    /// of the account is for the account's state to say.
    pub fn nonce(&self) -> (nonce: Nonce)
        ensures
            nonce == self.declared_nonce(),
    {
        match self {
            FranklinTx::Transfer(tx) => tx.nonce,
            FranklinTx::Withdraw(tx) => tx.nonce,
            FranklinTx::Close(tx) => tx.nonce,
        }
    }

    /// Whether the signature stands for the transaction inside; see
    /// `Transfer::verify_signature`.
    pub fn check_signature(&self, verdict: &MusigVerdict, key_owner: &DerivedAddress) -> (valid:
        bool)
        ensures
            valid == self.signature_stands(*verdict, *key_owner),
    {
        match self {
            FranklinTx::Transfer(tx) => tx.verify_signature(verdict, key_owner),
            FranklinTx::Withdraw(tx) => tx.verify_signature(verdict, key_owner),
            FranklinTx::Close(tx) => tx.verify_signature(verdict, key_owner),
        }
    }

    /// The bytes that are signed and hashed. They open with the
    /// discriminant of the kind.
    pub fn get_bytes(&self) -> (bytes: Vec<u8>)
        ensures
            bytes@ == self.encoding(),
            bytes@[0] == self.kind().spec_discriminant(),
    {
        match self {
            FranklinTx::Transfer(tx) => tx.get_bytes(),
            FranklinTx::Withdraw(tx) => tx.get_bytes(),
            FranklinTx::Close(tx) => tx.get_bytes(),
        }
    }
}

} // verus!
