//! The decision logic of a chat-gateway media collector: decoding of gateway
//! frames, the write-once session, the connection life cycle, the selection of
//! media out of a message, the placement of downloaded media on disk and the
//! acknowledgment sent back. Everything here works on plain values; sockets,
//! HTTP and the file system belong to the program around this library.

pub mod clock;
pub mod collect;
pub mod document;
pub mod event;
pub mod reply;
pub mod session;
pub mod store;
pub mod text;
