//! Host-side pipeline for proving and verifying the execution of a small
//! guest program on a sharded zero-knowledge virtual machine.
//!
//! The pipeline configures the guest's memory layout ([`platform`]), encodes
//! host inputs into the positional wire format the guest reads ([`codec`]),
//! runs the guest to completion and partitions its cycle trace into bounded
//! shards, one proof per shard ([`prover`]), and checks an ordered proof set
//! against the expected public statement ([`verification`]).


pub mod codec;
pub mod fib;
pub mod guest;
pub mod platform;
pub mod prover;
pub mod verification;
pub mod workspace;
