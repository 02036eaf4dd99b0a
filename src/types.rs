use vstd::prelude::*;

verus! {

/// The identity of a participant (a user or a program): 32 bytes, held as
/// two 128-bit halves.
#[derive(Clone, Copy, Debug, PartialEq, Eq, Structural)]
pub struct ActorId {
    pub high: u128,
    pub low: u128,
}

/// The identity of a message: 32 bytes, held as two 128-bit halves. The
/// all-zero id is the sentinel "no message".
#[derive(Clone, Copy, Debug, PartialEq, Eq, Structural)]
pub struct MessageId {
    pub high: u128,
    pub low: u128,
}

impl MessageId {
    /// The sentinel id that stands for "no message".
    pub fn zero() -> (r: MessageId)
        ensures
            r == MessageId::spec_zero(),
    {
        MessageId { high: 0, low: 0 }
    }

    pub open spec fn spec_zero() -> MessageId {
        MessageId { high: 0, low: 0 }
    }

    pub fn is_zero(&self) -> (r: bool)
        ensures
            r == (*self == MessageId::spec_zero()),
    {
        self.high == 0 && self.low == 0
    }
}

/// A user's request to the session service.
#[derive(Clone, Debug, PartialEq)]
pub enum SessionAction {
    StartGame,
    CheckWord { word: String },
    CheckGameStatus { user: ActorId },
}

/// Outcome of a game.
#[derive(Clone, Copy, Debug, PartialEq, Eq, Structural)]
pub enum SessionResult {
    Ongoing,
    Win,
    Lose,
}

/// What the session service answers to its callers.
#[derive(Clone, Debug, PartialEq)]
pub enum SessionEvent {
    Initialized,
    GameStarted,
    WordChecked { correct_positions: Vec<u8>, contained_in_word: Vec<u8> },
    GameOver { result: SessionResult },
}

/// Where a session stands in its exchange with the oracle.
#[derive(Clone, Debug, PartialEq)]
pub enum SessionStatus {
    /// Idle: ready for a new game.
    StartGameWaiting,
    /// A start request is out to the oracle and the calling `StartGame` is suspended.
    StartGameSent,
    /// A game is running and the user may guess.
    CheckWordWaiting,
    /// A word-check request is out to the oracle and the calling `CheckWord` is suspended.
    CheckWordSent,
    /// The oracle's reply has landed; the suspended call resumes with it.
    ReplyReceived(SessionEvent),
}

/// A request to the oracle service.
#[derive(Clone, Debug, PartialEq)]
pub enum OracleAction {
    StartGame { user: ActorId },
    CheckWord { user: ActorId, word: String },
}

/// A reply of the oracle service.
#[derive(Clone, Debug, PartialEq)]
pub enum OracleEvent {
    GameStarted { user: ActorId },
    WordChecked { user: ActorId, correct_positions: Vec<u8>, contained_in_word: Vec<u8> },
}

/// The record kept for one user.
#[derive(Debug)]
pub struct Session {
    /// The block height at which the current game started.
    pub start_block: u32,
    /// Guesses judged by the oracle in the current game.
    pub check_count: u8,
    /// The outstanding request to the oracle and the suspended call waiting
    /// for its answer; both zero when nothing is outstanding.
    pub msg_ids: (MessageId, MessageId),
    pub status: SessionStatus,
    pub result: SessionResult,
}

/// Most guesses a game allows.
pub const MAX_CHECK_COUNT: u8 = 6;

/// Blocks after the start of a game at which it expires; the self-check is
/// scheduled with the same delay.
pub const CHECK_GAME_STATUS_DELAY: u32 = 200;

/// Letters in a guessed word.
pub const WORD_LENGTH: usize = 5;

/// The status is one in which a call is suspended on an oracle request.
pub open spec fn is_awaiting(status: SessionStatus) -> bool {
    ||| status is StartGameSent
    ||| status is CheckWordSent
    ||| status is ReplyReceived
}

/// The status belongs to a game that is taking guesses.
pub open spec fn is_guessing(status: SessionStatus) -> bool {
    ||| status is CheckWordWaiting
    ||| status is CheckWordSent
    ||| status matches SessionStatus::ReplyReceived(SessionEvent::WordChecked { .. })
}

impl Session {
    /// The correlation pair is set (not both zero).
    pub open spec fn has_pending(&self) -> bool {
        !(self.msg_ids.0 == MessageId::spec_zero() && self.msg_ids.1 == MessageId::spec_zero())
    }

    /// The invariant of a session record: while a call is suspended its id
    /// is recorded, and otherwise both correlation ids are zero; the guess
    /// count stays within its bound and is below it while guesses may still
    /// come; a game with every guess spent is over; and a game still taking
    /// guesses is ongoing.
    pub open spec fn wf(&self) -> bool {
        &&& is_awaiting(self.status) ==> self.msg_ids.1 != MessageId::spec_zero()
        &&& !is_awaiting(self.status) ==> self.msg_ids == (MessageId::spec_zero(), MessageId::spec_zero())
        &&& self.check_count <= MAX_CHECK_COUNT
        &&& self.check_count == MAX_CHECK_COUNT ==> self.result != SessionResult::Ongoing
        &&& is_guessing(self.status) ==> self.check_count < MAX_CHECK_COUNT
        &&& is_guessing(self.status) ==> self.result == SessionResult::Ongoing
    }

    /// The record of a user who has not played yet.
    pub open spec fn spec_fresh() -> Session {
        Session {
            start_block: 0,
            check_count: 0,
            msg_ids: (MessageId::spec_zero(), MessageId::spec_zero()),
            status: SessionStatus::StartGameWaiting,
            result: SessionResult::Ongoing,
        }
    }

    pub fn fresh() -> (r: Session)
        ensures
            r == Session::spec_fresh(),
            r.wf(),
    {
        Session {
            start_block: 0,
            check_count: 0,
            msg_ids: (MessageId::zero(), MessageId::zero()),
            status: SessionStatus::StartGameWaiting,
            result: SessionResult::Ongoing,
        }
    }
}

} // verus!
