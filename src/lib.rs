//! A fixed-width binary codec for tile coordinates, and the decisions of a
//! publish/subscribe relay that carries encoded coordinates as byte payloads.

pub mod backend;
pub mod buffer;
pub mod codec;
pub mod relay;
