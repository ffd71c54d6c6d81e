use crate::wire::{same_bytes, to_array};
use crate::error::TxError;
use vstd::prelude::*;
use vstd::std_specs::cmp::PartialEqSpecImpl;

verus! {

/// Names a registered asset.
pub type TokenId = u16;

/// Replay counter of an account.
pub type Nonce = u32;

/// Width of an account address, in bytes.
pub const ADDRESS_LEN: usize = 27;

/// Width of an address of the base chain, in bytes.
pub const ETH_ADDRESS_LEN: usize = 20;

/// Width of the compact form of a transferred amount, in bytes.
pub const PACKED_AMOUNT_LEN: usize = 3;

/// Width of the compact form of a fee, in bytes.
pub const PACKED_FEE_LEN: usize = 1;

/// What the library makes of the outcome of an amount packer, for a compact
/// form of `width` bytes: the packer gives nothing for an amount out of its
/// range, and bytes of another width are no compact form.
pub open spec fn packer_outcome(outcome: Option<Seq<u8>>, width: nat) -> Result<Seq<u8>, TxError> {
    match outcome {
        None => Err(TxError::AmountOutOfRange),
        Some(bytes) => if bytes.len() == width {
            Ok(bytes)
        } else {
            Err(TxError::MalformedEncoding)
        },
    }
}

/// The bytes that a packer handed over, if it handed any.
pub open spec fn packed_view(outcome: Option<Vec<u8>>) -> Option<Seq<u8>> {
    match outcome {
        Some(bytes) => Some(bytes@),
        None => None,
    }
}

/// The address of an account: the one-way compression of its public key.
/// Addresses are compared by their bytes.
#[derive(Clone, Copy, Debug)]
pub struct AccountAddress {
    pub data: [u8; 27],
}

impl View for AccountAddress {
    type V = Seq<u8>;

    open spec fn view(&self) -> Seq<u8> {
        self.data@
    }
}

impl PartialEq for AccountAddress {
    fn eq(&self, other: &Self) -> (same: bool) {
        same_bytes(self.data.as_slice(), other.data.as_slice())
    }
}

impl PartialEqSpecImpl for AccountAddress {
    open spec fn obeys_eq_spec() -> bool {
        true
    }

    open spec fn eq_spec(&self, other: &Self) -> bool {
        self.data@ == other.data@
    }
}

impl Eq for AccountAddress {

}

impl AccountAddress {
    /// The address with the given bytes; `MalformedEncoding` unless there
    /// are exactly 27 of them.
    pub fn from_bytes(bytes: &[u8]) -> (made: Result<Self, TxError>)
        ensures
            match made {
                Ok(address) => bytes@.len() == ADDRESS_LEN && address@ == bytes@,
                Err(e) => bytes@.len() != ADDRESS_LEN && e == TxError::MalformedEncoding,
            },
    {
        if bytes.len() != ADDRESS_LEN {
            return Err(TxError::MalformedEncoding);
        }
        Ok(AccountAddress { data: to_array(bytes) })
    }
}

/// An address of the base chain, to which a withdrawal pays out.
#[derive(Clone, Copy, Debug)]
pub struct EthAddress {
    pub data: [u8; 20],
}

impl View for EthAddress {
    type V = Seq<u8>;

    open spec fn view(&self) -> Seq<u8> {
        self.data@
    }
}

impl PartialEq for EthAddress {
    fn eq(&self, other: &Self) -> (same: bool) {
        same_bytes(self.data.as_slice(), other.data.as_slice())
    }
}

impl PartialEqSpecImpl for EthAddress {
    open spec fn obeys_eq_spec() -> bool {
        true
    }

    open spec fn eq_spec(&self, other: &Self) -> bool {
        self.data@ == other.data@
    }
}

impl Eq for EthAddress {

}

impl EthAddress {
    /// The address with the given bytes; `MalformedEncoding` unless there
    /// are exactly 20 of them.
    pub fn from_bytes(bytes: &[u8]) -> (made: Result<Self, TxError>)
        ensures
            match made {
                Ok(address) => bytes@.len() == ETH_ADDRESS_LEN && address@ == bytes@,
                Err(e) => bytes@.len() != ETH_ADDRESS_LEN && e == TxError::MalformedEncoding,
            },
    {
        if bytes.len() != ETH_ADDRESS_LEN {
            return Err(TxError::MalformedEncoding);
        }
        Ok(EthAddress { data: to_array(bytes) })
    }
}

/// A transferred amount in the compact form that is signed: what the
/// packer for token amounts made of the decimal amount.
#[derive(Clone, Copy, Debug, PartialEq, Eq)]
pub struct PackedAmount {
    pub data: [u8; 3],
}

impl View for PackedAmount {
    type V = Seq<u8>;

    open spec fn view(&self) -> Seq<u8> {
        self.data@
    }
}

impl PackedAmount {
    /// Takes the outcome of the packer for token amounts. An amount that
    /// the packer could not represent is reported as `AmountOutOfRange`,
    /// never cut to fit.
    pub fn from_packer(outcome: Option<Vec<u8>>) -> (made: Result<Self, TxError>)
        ensures
            match made {
                Ok(amount) => packer_outcome(packed_view(outcome), PACKED_AMOUNT_LEN as nat)
                    == Ok::<Seq<u8>, TxError>(amount@),
                Err(e) => packer_outcome(packed_view(outcome), PACKED_AMOUNT_LEN as nat)
                    == Err::<Seq<u8>, TxError>(e),
            },
    {
        match outcome {
            None => Err(TxError::AmountOutOfRange),
            Some(bytes) => {
                if bytes.len() != PACKED_AMOUNT_LEN {
                    return Err(TxError::MalformedEncoding);
                }
                Ok(PackedAmount { data: to_array(bytes.as_slice()) })
            },
        }
    }
}

/// A fee in the compact form that is signed: what the packer for fees made
/// of the decimal fee.
#[derive(Clone, Copy, Debug, PartialEq, Eq)]
pub struct PackedFee {
    pub data: [u8; 1],
}

impl View for PackedFee {
    type V = Seq<u8>;

    open spec fn view(&self) -> Seq<u8> {
        self.data@
    }
}

impl PackedFee {
    /// Takes the outcome of the packer for fees. A fee that the packer
    /// could not represent is reported as `AmountOutOfRange`, never cut to
    /// fit.
    pub fn from_packer(outcome: Option<Vec<u8>>) -> (made: Result<Self, TxError>)
        ensures
            match made {
                Ok(fee) => packer_outcome(packed_view(outcome), PACKED_FEE_LEN as nat)
                    == Ok::<Seq<u8>, TxError>(fee@),
                Err(e) => packer_outcome(packed_view(outcome), PACKED_FEE_LEN as nat)
                    == Err::<Seq<u8>, TxError>(e),
            },
    {
        match outcome {
            None => Err(TxError::AmountOutOfRange),
            Some(bytes) => {
                if bytes.len() != PACKED_FEE_LEN {
                    return Err(TxError::MalformedEncoding);
                }
                Ok(PackedFee { data: to_array(bytes.as_slice()) })
            },
        }
    }
}

} // verus!
