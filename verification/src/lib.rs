//! Core of a line-oriented broadcast chat service.
//!
//! A process accepts many concurrent newline-delimited text connections,
//! reads a display name from each, and fans every further line out to all
//! other connected peers. The verified library holds the pieces with real
//! logic: the line codec, the chat events and their wire rendering, the
//! connection-identifier scheme, the registry of outbound channels, the
//! per-connection supervisor state machine, and a model of broadcast
//! delivery with its proved properties. The async network wiring that
//! drives these pieces lives outside the library.

pub mod channel;
pub mod codec;
pub mod config;
pub mod event;
pub mod ids;
pub mod model;
pub mod registry;
pub mod supervisor;

use vstd::prelude::*;

verus! {

} // verus!
