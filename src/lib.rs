//! Session coordination for a word-guessing game played against a separate
//! oracle service: per-user session records, the state machine that drives
//! them, and the correlation of oracle replies with suspended calls.
//!
//! The host runs the machine: it hands each call to
//! [`GameSessionState::handle`], performs the returned [`Command`], reports the
//! id of each request it sent through [`GameSessionState::request_sent`], and
//! passes each oracle reply to [`GameSessionState::handle_reply`], which names
//! the suspended call to resume.

pub mod types;
pub mod store;
pub mod machine;
pub mod laws;

pub use machine::{expired, is_valid_word, Command, SessionError};
pub use store::{find_session, insert_or_update_session, GameSessionState};
pub use types::{
    ActorId, MessageId, OracleAction, OracleEvent, Session, SessionAction, SessionEvent, SessionResult,
    SessionStatus, CHECK_GAME_STATUS_DELAY, MAX_CHECK_COUNT, WORD_LENGTH,
};
