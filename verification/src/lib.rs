//! The logic of a QQ NT protocol client: reading the server's events, deciding what the
//! client's listeners are told, filling in message media, caching accounts and members, and
//! keeping the session. Outside work (requests to the server, decoding messages, the clock) is
//! asked for by these functions and answered by their callers.

use vstd::prelude::*;

pub mod entity;
pub mod cache;
pub mod store;
pub mod text;
pub mod proto;
pub mod error;
pub mod event;
pub mod message;
pub mod dispatch;
pub mod business;
pub mod time;
pub mod codec;
pub mod highway;
pub mod context;
pub mod connect;

verus! {

} // verus!
