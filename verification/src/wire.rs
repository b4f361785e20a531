//! Fixed-layout wire types exchanged across the execution boundary: code
//! identities, the raw token representation, unit status codes, and the
//! signature placeholders. Pure data contracts, no behavior beyond queries.

use vstd::prelude::*;

verus! {

/// Identity of a compiled code module: a 32-byte hash.
#[derive(Clone, Copy, PartialEq, Eq)]
pub struct CodeHash {
    raw: [u8; 32],
}

impl CodeHash {
    /// The raw bytes of the hash.
    pub closed spec fn bytes(&self) -> Seq<u8> {
        self.raw@
    }

    /// The all-zero code hash.
    pub fn zero() -> (c: Self)
        ensures
            c.bytes().len() == 32,
            forall|i: int| 0 <= i < 32 ==> c.bytes()[i] == 0,
    {
        CodeHash { raw: [0; 32] }
    }
}

/// A public key. Placeholder: carries no key material in this version.
#[derive(Clone, Copy, PartialEq, Eq)]
pub struct PublicKey {}

/// A private key. Placeholder: carries no key material in this version.
#[derive(Clone, Copy)]
pub struct PrivateKey;

/// A signature over a message. Placeholder: carries no signature material in
/// this version.
#[derive(Clone, Copy)]
pub struct SignedMessage;

impl PrivateKey {
    /// The public half of this key pair.
    pub fn public_key(&self) -> (k: PublicKey)
        ensures
            k == (PublicKey {}),
    {
        PublicKey {}
    }

    /// Signs a message. Placeholder: the signing primitive is outside this
    /// core; the returned value carries no material.
    pub fn sign(&self, _message: &[u8]) -> SignedMessage {
        SignedMessage
    }
}

impl SignedMessage {
    /// Checks a signature against a message. Placeholder: verification is
    /// outside this core, so every check accepts in this version.
    pub fn is_valid(&self, _message: &[u8]) -> (r: bool)
        ensures
            r,
    {
        true
    }
}

/// Asserts that the current coordination-script call is signed by `key`.
/// Placeholder: no enforcement happens in this version; a host integrating
/// this core must supply the real policy itself.
pub fn assert_tx_signed_by(_key: PublicKey) {
}

/// Observable status of a guest unit: `Yielded` (paused, resumable) or
/// `Returned` (finished, terminal).
#[derive(Clone, Copy, Debug, PartialEq, Eq, Structural)]
pub enum UtxoStatus {
    Returned,
    Yielded,
}

impl UtxoStatus {
    /// A unit can be resumed exactly when it is paused at a suspension point.
    pub fn can_resume(&self) -> (r: bool)
        ensures
            r == (*self == UtxoStatus::Yielded),
    {
        matches!(self, UtxoStatus::Yielded)
    }
}

/// A violation of the boundary contract, detected when the host drives a
/// unit. No such value crosses the boundary as data: each one stands for a
/// condition on which a real host aborts the guest instance.
#[derive(Clone, Copy, Debug, PartialEq, Eq, Structural)]
pub enum BoundaryViolation {
    /// A resume was attempted on a unit that is not paused (its status is
    /// `Returned`).
    NotResumable,
    /// The value supplied on resume does not have the size the suspension
    /// channel declared for its resume type.
    ResumeSizeMismatch,
}

/// Concrete wire representation of a resource outside of live form: the
/// shape a token takes while being minted or just after being burned.
#[derive(Clone, Copy, Debug, PartialEq, Eq, Structural)]
pub struct TokenStorage {
    pub id: u64,
    pub amount: u64,
}

} // verus!
