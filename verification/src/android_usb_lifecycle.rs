//! One USB session of an RNode, from the choice of a device to the release of its
//! connection.
pub mod device;
pub mod gate;
pub mod inbound;
pub mod lease;
pub mod pump;
pub mod queue;
pub mod reader;
pub mod shutdown;
pub mod startup;
pub mod write;
pub mod writer;
