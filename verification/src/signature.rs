use crate::curve::{musig_sha256_accepts, musig_sha256_check, CurveParams};
use crate::hextext::hex_text;
use crate::packed::{PackedPublicKey, PackedSignature};
use crate::wire::same_bytes;
use vstd::prelude::*;

verus! {

/// The two ways to take the challenge of a MuSig signature.
#[derive(Clone, Copy, Debug, PartialEq, Eq, Structural)]
pub enum SignatureType {
    /// The challenge is a Pedersen hash.
    MusigPedersen,
    /// The challenge is a SHA-256 digest.
    MusigSha256,
}

/// A public key together with a signature made with its private key.
#[derive(Clone, Copy, PartialEq, Eq)]
pub struct TxSignature {
    pub pub_key: PackedPublicKey,
    pub sign: PackedSignature,
}

/// The outcome of a MuSig check that was made outside the library, together
/// with what it was made on. A verdict counts only for the key, the signature
/// and the message that it names.
#[derive(Clone, PartialEq, Eq)]
pub struct MusigVerdict {
    pub pub_key: PackedPublicKey,
    pub sign: PackedSignature,
    pub message: Vec<u8>,
    pub accepted: bool,
}

impl MusigVerdict {
    /// The verdict was taken on this signature and this message.
    pub open spec fn covers(&self, signature: TxSignature, message: Seq<u8>) -> bool {
        &&& self.pub_key@ == signature.pub_key@
        &&& self.sign@ == signature.sign@
        &&& self.message@ == message
    }

    /// The verdict was taken on this signature and this message, and the
    /// signature was accepted.
    pub open spec fn accepts(&self, signature: TxSignature, message: Seq<u8>) -> bool {
        self.accepted && self.covers(signature, message)
    }
}

/// What checking a signed message found: whether the signature holds, and
/// the signer's key where it does.
#[derive(Clone, Copy, PartialEq, Eq)]
pub struct SignedMessageKey {
    pub correct: bool,
    pub pk: Option<PackedPublicKey>,
}

/// How a signature is shown in diagnostics: both parts in their text form.
pub open spec fn signature_rendering(pub_key: Seq<u8>, sign: Seq<u8>) -> Seq<char> {
    "{ pub_key: "@ + hex_text(pub_key) + ", sign: "@ + hex_text(sign) + " }"@
}

/// `format!` of std: the two texts between the fixed words.
#[verifier::external_body]
fn render_parts(pub_key: &str, sign: &str) -> (text: String)
    ensures
        text@ == "{ pub_key: "@ + pub_key@ + ", sign: "@ + sign@ + " }"@,
{
    format!("{{ pub_key: {}, sign: {} }}", pub_key, sign)
}

impl TxSignature {
    /// The embedded key where `accepted` holds, nobody where it does not.
    pub open spec fn signer_if(&self, accepted: bool) -> Option<PackedPublicKey> {
        if accepted {
            Some(self.pub_key)
        } else {
            None
        }
    }

    /// The signer that a verdict on this signature recovers: the embedded
    /// key where the signature was accepted, nobody where it was not.
    pub fn signer_for(&self, accepted: bool) -> (signer: Option<PackedPublicKey>)
        ensures
            signer == self.signer_if(accepted),
    {
        if accepted {
            Some(self.pub_key)
        } else {
            None
        }
    }

    /// The signer of `msg` by a MuSig check with the Pedersen challenge.
    ///
    /// The curve crate that this library links offers no Pedersen
    /// challenge, so the check itself is made outside, with the generator
    /// reserved for spending keys, and its outcome is handed over as
    /// `verdict`. The verdict counts only if it was taken on this key, this
    /// signature and `msg`. A signature that does not hold is not an error:
    /// the result is `None`.
    pub fn verify_musig_pedersen(&self, msg: &[u8], verdict: &MusigVerdict) -> (signer: Option<
        PackedPublicKey,
    >)
        ensures
            signer == self.signer_if(verdict.accepts(*self, msg@)),
    {
        let covers = verdict.pub_key == self.pub_key && verdict.sign == self.sign && same_bytes(
            verdict.message.as_slice(),
            msg,
        );
        self.signer_for(verdict.accepted && covers)
    }

    /// Checks the signature over `msg` with the SHA-256 challenge and
    /// returns the signer's key where it holds, `None` where it does not.
    ///
    /// The curve crate takes this challenge over 32 bytes of message: a
    /// shorter one is filled up with zeros, and of a longer one only the
    /// first 32 bytes count. Sign and check a digest, not a long message.
    pub fn verify_musig_sha256(&self, msg: &[u8], params: &CurveParams) -> (signer: Option<
        PackedPublicKey,
    >)
        ensures
            signer == self.signer_if(musig_sha256_accepts(self.pub_key@, self.sign@, msg@)),
    {
        let accepted = musig_sha256_check(
            self.pub_key.as_bytes(),
            self.sign.as_bytes(),
            msg,
            params,
        );
        self.signer_for(accepted)
    }

    /// The signature as diagnostics show it: key and signature in their
    /// text form, never their bytes or their algebra.
    pub fn render(&self) -> (text: String)
        ensures
            text@ == signature_rendering(self.pub_key@, self.sign@),
    {
        let pub_key = self.pub_key.serialize();
        let sign = self.sign.serialize();
        render_parts(pub_key.as_str(), sign.as_str())
    }
}

/// What `check_signature` answers for a verdict.
pub open spec fn signed_message_key(signature: TxSignature, accepted: bool) -> SignedMessageKey {
    SignedMessageKey { correct: accepted, pk: signature.signer_if(accepted) }
}

/// The verdict that `check_signature` goes by: the one handed over for the
/// Pedersen challenge, the curve crate's for SHA-256.
pub open spec fn verdict_for(
    msg: Seq<u8>,
    signature: TxSignature,
    variant: SignatureType,
    pedersen: MusigVerdict,
) -> bool {
    match variant {
        SignatureType::MusigPedersen => pedersen.accepts(signature, msg),
        SignatureType::MusigSha256 => musig_sha256_accepts(
            signature.pub_key@,
            signature.sign@,
            msg,
        ),
    }
}

/// Checks a signed message under the chosen challenge and reports whether
/// the signature holds and, where it does, the signer's key.
///
/// `pedersen` is the outcome of the check with the Pedersen challenge (see
/// `TxSignature::verify_musig_pedersen`); it is not consulted for SHA-256.
pub fn check_signature(
    msg: &[u8],
    signature: &TxSignature,
    variant: SignatureType,
    pedersen: &MusigVerdict,
    params: &CurveParams,
) -> (found: SignedMessageKey)
    ensures
        found == signed_message_key(*signature, verdict_for(msg@, *signature, variant, *pedersen)),
{
    let pk = match variant {
        SignatureType::MusigPedersen => signature.verify_musig_pedersen(msg, pedersen),
        SignatureType::MusigSha256 => signature.verify_musig_sha256(msg, params),
    };
    SignedMessageKey { correct: pk.is_some(), pk }
}

/// The line that reports the validity of a transaction's signature.
pub fn validity_report(valid: bool) -> (text: &'static str)
    ensures
        text@ == if valid {
            "{ valid: true }"@
        } else {
            "{ valid: false }"@
        },
{
    if valid {
        "{ valid: true }"
    } else {
        "{ valid: false }"
    }
}

} // verus!
