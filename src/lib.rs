//! A searchable symbol picker: a case-insensitive filter over symbol records,
//! an epoch-guarded notification state machine, and the session that routes
//! input, copy outcomes and timer events between them.

pub mod text;
pub mod record;
pub mod filter;
pub mod notice;
pub mod session;

pub use filter::{filter, matches_lowered, matches_query};
pub use notice::{HideTimer, Notifier, HIDE_DELAY_MS};
pub use record::Record;
pub use session::{CopyEffect, CopyOutcome, Session, COPIED_MESSAGE};
