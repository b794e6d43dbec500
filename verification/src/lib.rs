//! A registry of multi-owner wallets.
//!
//! A wallet is a list of owners and a threshold. An owner submits the digest
//! of an action, owners approve it, and once as many of them as the threshold
//! asks for have done so, anyone may reveal the action and have it run under
//! the wallet's own derived account. A wallet is destroyed in the same way: by
//! an approved action that runs under its own account.
//!
//! - [`types`]: the plain data.
//! - [`hashing`], [`address`]: the digest of an action and the derivation of a
//!   wallet's account.
//! - [`model`]: the state of the registry as mathematics, and what each
//!   operation does to it.
//! - [`laws`]: what follows, proved.
//! - [`registry`]: the operations on plain values.
//! - [`pallet`]: the operations as callers use them, with notifications.

pub mod address;
pub mod hashing;
pub mod laws;
pub mod model;
pub mod pallet;
pub mod registry;
pub mod types;
