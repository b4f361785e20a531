//! Execution contract for small resumable computations ("guest units") that
//! run inside an isolated execution boundary and are driven step by step by an
//! external controller ("the host").
//!
//! Two protocols are layered on a single raw call boundary and verified here
//! against an explicit model of the host:
//!
//! * a suspension protocol: a guest unit pauses mid-execution, hands a typed
//!   value to the host, and is later resumed with a typed value, with strict
//!   per-pause size agreement between the two sides;
//! * a linear-resource protocol: opaque handles representing fungible value
//!   ("tokens") are minted from and burned back into a concrete wire
//!   representation exactly once each, with no duplication or resurrection.
//!
//! The host is modeled as an injected dependency: an arena of unit and token
//! states that it alone maintains, with the guest holding only small integer
//! keys tagged by a phantom type. This makes the core testable against a fake
//! host without a real execution boundary.

pub mod suspend;
pub mod token;
pub mod utxo;
pub mod wire;

pub use suspend::Channel;
pub use suspend::HostEndpoint;
pub use suspend::sleep;
pub use suspend::sleep_mut;

pub use utxo::RawUtxo;
pub use utxo::UnitStep;
pub use utxo::Utxo;
pub use utxo::UtxoArena;
pub use utxo::UtxoHandle;

pub use token::StorageToken;
pub use token::Token;
pub use token::TokenArena;
pub use token::TokenHandle;

pub use wire::BoundaryViolation;
pub use wire::CodeHash;
pub use wire::PrivateKey;
pub use wire::PublicKey;
pub use wire::SignedMessage;
pub use wire::TokenStorage;
pub use wire::UtxoStatus;
pub use wire::assert_tx_signed_by;
