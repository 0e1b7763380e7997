//! Interactive control-flow core of an account and transaction command surface:
//! a resolver for "add access key" actions with their permission variants, the
//! browser-assisted login state machine, access-key verification, the credential
//! store, and the block-height account view.
pub mod account;
pub mod codec;
pub mod action;
pub mod login;
pub mod permission;
pub mod store;
pub mod verify;
pub mod view;
