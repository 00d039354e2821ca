//! Page render cache for a paginated-document viewer.
//!
//! The viewport, a [`canvas::DocumentCanvas`], submits commands to a
//! [`channel::SyncCacheCommandChannel`]; a [`worker::SyncCacheWorker`] drains
//! the channel into a [`cache::PageCache`], which keeps a bounded, ordered
//! store of rendered pages and evicts the cached page that lies farther from
//! the page shown.
pub mod cache;
pub mod canvas;
pub mod channel;
pub mod command;
pub mod ordered_map;
pub mod page;
pub mod worker;
