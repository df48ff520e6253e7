//! Decision logic of a network bridge: the component that multiplexes traffic
//! between a node's subsystems and its two peer-sets.
//!
//! The bridge is a state machine. [`bridge::BridgeState::handle_action`]
//! takes one [`action::Action`] and returns the [`effect::Effect`]s to
//! perform; whoever drives the bridge performs them and comes back with the
//! next action.

pub mod action;
pub mod bridge;
pub mod cli;
pub mod codec;
pub mod dispatch;
pub mod effect;
pub mod event;
pub mod handler;
pub mod laws;
pub mod origin;
pub mod peers;
pub mod primitives;
pub mod reputation;
pub mod subsystem;
pub mod translator;
pub mod view;
pub mod wire;

pub use crate::subsystem::NetworkBridge;
pub use crate::wire::WireMessage;
