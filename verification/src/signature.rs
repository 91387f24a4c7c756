//! Signatures: whether a submission was signed by the key that it names.
//!
//! The check is that of `sp_core` 2.0.1, which is built against
//! `schnorrkel` 0.9.1; the manifest names `substrate-bip39` at 0.4.2 to
//! keep it at that one `schnorrkel`.

use vstd::prelude::*;
use crate::dispatch::Authority;

verus! {

/// Whether `signature` is the sr25519 signature of `message` under the key
/// `public`, in the signing context of the chain.
pub uninterp spec fn sr25519_verifies(
    public: Seq<u8>,
    signature: Seq<u8>,
    message: Seq<u8>,
) -> bool;

/// The longest message that can be checked: its length is written into
/// the transcript of the signature as 32 bits.
pub const MESSAGE_MAX: usize = 0xffff_ffff;

/// Calls `<sr25519::Pair as Pair>::verify` of `sp_core`, with
/// `Signature::from_raw` and `Public::from_raw` to make its arguments. The
/// answer depends on the key, the signature and the message alone. A
/// message longer than `MESSAGE_MAX` is left out: writing its length into
/// the transcript would fail.
#[verifier::external_body]
fn sr25519_verify(public: &[u8; 32], signature: &[u8; 64], message: &Vec<u8>) -> (good: bool)
    requires
        message@.len() <= MESSAGE_MAX,
    ensures
        good == sr25519_verifies(public@, signature@, message@),
{
    <sp_core::sr25519::Pair as sp_core::Pair>::verify(
        &sp_core::sr25519::Signature::from_raw(*signature),
        message,
        &sp_core::sr25519::Public::from_raw(*public),
    )
}

/// Whether `message` counts as signed by `public`: it is no longer than
/// `MESSAGE_MAX`, and `signature` is its signature under `public`.
pub open spec fn signed_by(public: Seq<u8>, signature: Seq<u8>, message: Seq<u8>) -> bool {
    message.len() <= MESSAGE_MAX && sr25519_verifies(public, signature, message)
}

/// Whether `sign` is the signature of `msg` under `pub_key`.
pub fn verify_sign(pub_key: &[u8; 32], sign: &[u8; 64], msg: &Vec<u8>) -> (good: bool)
    ensures
        good == signed_by(pub_key@, sign@, msg@),
{
    if msg.len() > MESSAGE_MAX {
        false
    } else {
        sr25519_verify(pub_key, sign, msg)
    }
}

/// One signature on a submission: the key, the signature, and the bytes
/// that were signed.
pub struct Signed {
    pub key: [u8; 32],
    pub sign: [u8; 64],
    pub msg: Vec<u8>,
}

impl Signed {
    /// Whether the signature holds.
    pub open spec fn holds(&self) -> bool {
        signed_by(self.key@, self.sign@, self.msg@)
    }
}

impl Authority {
    /// What is known about a submission: whether the signature of the user
    /// and that of the server hold, and what the member registry said of
    /// the application and of the server's key.
    pub fn of(user: &Signed, auth: &Signed, app_valid: bool, app_key_valid: bool) -> (authority:
        Authority)
        ensures
            authority == (Authority {
                user_signed: user.holds(),
                auth_signed: auth.holds(),
                app_valid,
                app_key_valid,
            }),
    {
        Authority {
            user_signed: verify_sign(&user.key, &user.sign, &user.msg),
            auth_signed: verify_sign(&auth.key, &auth.sign, &auth.msg),
            app_valid,
            app_key_valid,
        }
    }
}

} // verus!
