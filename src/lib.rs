//! Session bookkeeping, datagram framing and event routing for the UDP relay
//! of an encrypted SOCKS5 proxy.
//!
//! The library decides; the host performs. The host owns the sockets, the
//! reactor, the cipher and the per-session handlers, hands the library plain
//! values (bytes, identifiers, source addresses, outcomes of its own calls)
//! and carries out the actions that come back.
mod addr;
mod framer;
mod ids;
mod relay;
mod table;

pub use addr::SourceAddr;
pub use framer::{frame, parse_header, DropReason, Frame, Header, Role};
pub use ids::IdAllocator;
pub use relay::{
    lemma_destroy_twice, lemma_distinct_sources_distinct_ids, lemma_free_id_unreachable,
    lemma_reachable_from_both_or_neither, Request, Route, UdpRelay,
};
pub use table::SessionTable;
