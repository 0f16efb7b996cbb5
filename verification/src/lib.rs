//! An access-controlled message-relay ledger.
//!
//! A caller opens a time-bounded session that whitelists target programs
//! and opcodes, funds a fee vault, and then commits outbound messages into
//! an append-only outbox for asynchronous relay to a remote execution
//! domain. This crate holds the state-transition and authorization logic:
//! sessions, fee accounting, message classification and the commit log.
//! Storage, native-currency transfers, caller authentication and event
//! delivery are the host's concern; the functions here take the records the
//! host read and say exactly how they change.

pub mod classifier;
pub mod digest;
pub mod errors;
pub mod events;
pub mod laws;
pub mod lifecycle;
pub mod outbox;
pub mod send;
pub mod session;
pub mod types;
pub mod utils;
pub mod vault;

pub use classifier::{auth_error_spec, authorize, authorized_spec};
pub use digest::{chain_digest, sha256_spec, zero_digest, zero_digest_exec};
pub use errors::RouterError;
pub use events::{EntryCommitted, SessionClosed, SessionOpened};
pub use lifecycle::{close_error_spec, close_expired, open_error_spec, open_session};
pub use outbox::Outbox;
pub use send::{entry_id_spec, pre_entry_count, prev_digest_spec, send_error_spec, send_message};
pub use session::{Session, MAX_ALLOWED_OPCODES, MAX_ALLOWED_PROGRAMS};
pub use types::{
    account_id_bytes, entry_preimage, AccountId, EmbeddedOpcode, EmbeddedParams, OutboxEntry,
    SerializableAccountMeta, SonicMsg, SonicMsgInner,
};
pub use utils::verify_entry_signature;
pub use vault::{deposit_fee, deposit_result, withdraw_result, FeeVault};
