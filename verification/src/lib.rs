//! Weighted multi-key authorization policy for an account: a set of signing
//! keys with integer weights, and two action thresholds that say how much
//! signer weight a deployment and a key-management action need.
//!
//! Every edit of the policy goes through this crate, which keeps the account
//! governable: no threshold ever exceeds the weight the remaining keys can
//! raise, so no sequence of edits locks the owner out, and no threshold is
//! ever zero, so no sequence of edits lets in a signer without a key.
//!
//! - [`account`] holds the keys and thresholds of one account and the four
//!   edits its store accepts, each behind the signers' permission.
//! - [`manager`] builds the policy edits on them: [`set_key_weight`],
//!   [`set_deployment_threshold`], [`set_key_management_threshold`] and
//!   [`set_all`], which is all or nothing.
//! - [`steps`] decides each step of an edit: what to ask of the store first,
//!   and what each answer means. A store that lives elsewhere is driven by
//!   the same decisions.
//! - [`errors`] is the error taxonomy with its numeric codes.
//! - [`laws`] proves what holds of every edit.

pub mod account;
pub mod entry_points;
pub mod errors;
pub mod key_set;
pub mod laws;
pub mod manager;
pub mod steps;
pub mod types;

pub use account::Account;
pub use errors::Error;
pub use manager::{
    add_key, add_or_update_key, execute, remove_key_if_exists, set_all, set_deployment_threshold,
    set_key_management_threshold, set_key_weight, set_threshold, update_key_weight, Api,
};
pub use types::{
    AccountHash, ActionType, AddKeyFailure, RemoveKeyFailure, SetThresholdFailure,
    UpdateKeyFailure, Weight,
};
