//! Federation core: building, verifying, dispatching and applying the
//! moderation activities that forum instances exchange.
//!
//! The library is a deterministic engine over one value, the [`store::Store`].
//! Everything that reaches beyond the process is handed in as a plain value
//! or handed out as one: fetched actor documents come in through
//! [`directory::take_in`], deliveries go out as [`dispatch::Outbound`], and
//! what local sessions are told as [`notify::LocalUpdate`].
//!
//! An inbound activity passes through [`inbox::receive_activity`]: it is
//! verified against the store and applied to it, once. A change
//! that a local user asks for becomes an activity on its way out through the
//! functions of [`requests`] and of the modules named after the activities.

pub mod block_user;
pub mod builder;
pub mod checks;
pub mod collection_add;
pub mod collection_remove;
pub mod config;
pub mod deletion;
pub mod directory;
pub mod dispatch;
pub mod error;
pub mod inbox;
pub mod model;
pub mod notify;
pub mod protocol;
pub mod requests;
pub mod store;
pub mod undo_block_user;
pub mod urls;
