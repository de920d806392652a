//! The messages of a Honey Badger network node: what nodes tell each other,
//! what the tasks inside a node tell each other, and how messages travel over
//! a stream of bytes.
pub mod addr;
pub mod framing;
pub mod internal;
pub mod outside;
pub mod stream;
pub mod uid;
pub mod wire;

pub use addr::{InAddr, OutAddr, SocketAddr, SocketAddrV4, SocketAddrV6};
pub use internal::{InternalMessage, InternalMessageKind};
pub use stream::{Async, AsyncSink, Error, IoError, WireMessages};
pub use uid::Uid;
pub use wire::{NetworkNodeInfo, NetworkState, WireMessage, WireMessageKind};
