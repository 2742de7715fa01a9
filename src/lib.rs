//! A node of a simulated cluster: echo, unique ids, flooding broadcast,
//! topology and a grow-only counter, as a verified state machine.

mod ids;
pub mod laws;
pub mod message;
pub mod node;
pub mod registry;

pub use ids::{is_zero, UUID_V4_BITS, UUID_V4_MASK};
pub use message::{
    Add, AddOk, Broadcast, BroadcastOk, BodyModel, Echo, EchoOk, Generate, GenerateOk, Init,
    InitOk, Msg, MsgBody, MsgModel, Read, ReadOk, Topology, TopologyOk,
};
pub use node::Node;
pub use registry::{LookupError, Registry};
