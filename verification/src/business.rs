//! The business layer: what the client does with incoming and outgoing events.

use vstd::prelude::*;

pub mod messaging_logic;
pub mod chain_media;
pub mod system_logic;

verus! {

/// Which way an event travels through the logic.
#[derive(Clone, Copy, Debug, PartialEq, Eq, Structural)]
pub enum LogicFlow {
    InComing,
    OutGoing,
}

impl LogicFlow {
    /// How the flow is written in traces: ">>> InComing" or "<<< OutGoing".
    pub fn text(&self) -> (r: String)
        ensures
            r@ == (match *self {
                LogicFlow::InComing => ">>> InComing"@,
                LogicFlow::OutGoing => "<<< OutGoing"@,
            }),
    {
        match self {
            LogicFlow::InComing => ">>> InComing".to_string(),
            LogicFlow::OutGoing => "<<< OutGoing".to_string(),
        }
    }
}

} // verus!
pub mod pending;
