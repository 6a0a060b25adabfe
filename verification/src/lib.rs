//! Client-side protocol logic for a transactional secure-storage service.
//!
//! The storage service keeps named files with tamper and rollback
//! protection. Every mutating request carries a finalize flag: with the
//! flag set, the request and every previously staged request on the same
//! connection take effect together as one atomic unit; without it, the
//! request is staged and remains invisible until a later finalize.
//!
//! A [`Session`] owns one connection and exposes auto-finalizing file
//! operations. A [`Transaction`] takes the session over for its whole
//! lifetime and stages operations instead, resolving them all at once
//! with [`Transaction::commit`] or dropping them with
//! [`Transaction::discard`]. Because the transaction owns the session,
//! no direct session operation can even be written while a transaction
//! is open.
//!
//! The service itself is modelled by a verified in-memory interpreter of
//! the wire requests, so every contract in this crate — which name maps
//! to which contents after each call, and exactly when each error is
//! returned — is proved rather than assumed.

pub mod config;
pub mod error;
pub mod harness;
pub mod model;
pub mod session;
mod store;
mod table;
pub mod transaction;
pub mod wire;

pub use config::OpenMode;
pub use config::Port;
pub use error::Error;
pub use error::ErrorCode;
pub use error::TryNewError;
pub use session::SecureFile;
pub use session::Session;
pub use transaction::Transaction;
