//! Command model and execution protocol of a ledger wallet client.
//!
//! The holder of a keypair can ask for their address and balance, request
//! tokens from the token-grant service, pay, and confirm a payment. This
//! library decides; it does no input or output of its own.
//!
//! - [`command`] and [`config`] turn the words of a command line into a
//!   validated command and the configuration of an invocation.
//! - [`executor`] carries a command out step by step: each step names the
//!   lines to show and the one piece of outside work to do next.
//!   [`session`] states what whole runs do, and [`invocation`] joins reading
//!   the command line to the first step.
//! - [`keys`] and [`base58`] hold public keys and signatures and their
//!   base-58 text; [`decimal`] reads and writes token amounts.
//! - [`endpoint`], [`client`] and [`airdrop`] say whom to talk to and what
//!   to send.

pub mod airdrop;
pub mod base58;
pub mod client;
pub mod command;
pub mod config;
pub mod decimal;
pub mod endpoint;
pub mod error;
pub mod executor;
pub mod help;
pub mod invocation;
pub mod keys;
pub mod session;
pub mod text;
