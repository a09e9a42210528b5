//! Core of a foreign-callback dispatch mechanism.
//!
//! Native code (the host) invokes methods on objects whose implementation
//! lives in a foreign runtime (the guest). A call crosses the boundary as a
//! `(handle, selector, argument buffer)` triple handed to a trampoline that
//! was registered once at startup; the guest resolves the handle in a handle
//! map, decodes the arguments, invokes the user's implementation, and encodes
//! the outcome into a fresh result buffer.
//!
//! A buffer is a `Vec<u8>`: passing one by value transfers its ownership, so
//! each buffer has one owner at all times and the receiving side frees it by
//! dropping it; an empty buffer is a zero-length vector.
//!
//! Modules:
//! - [`codec`]: the wire format of the byte buffers (big-endian integers,
//!   length-prefixed UTF-8 strings, tagged optionals).
//! - [`record`]: records on the wire, as the concatenation of their fields.
//! - [`registry`]: the one-per-interface, set-once trampoline slot.
//! - [`handle_map`]: the guest-side map from nonzero handles to live objects.
//! - [`dispatch`]: the guest-side dispatcher for the example keychain
//!   interface.
//! - [`proxy`]: the host-side proxy for the same interface.
//! - [`literal`]: rendering of interface-level literal values as Python
//!   source text.

pub mod codec;
pub mod dispatch;
pub mod handle_map;
pub mod literal;
pub mod proxy;
pub mod record;
pub mod registry;
