use vstd::prelude::*;
use vstd::string::*;

use crate::store::{insert_or_update_session, take_session, GameSessionState};
use crate::types::{
    ActorId, MessageId, OracleAction, OracleEvent, Session, SessionAction, SessionEvent, SessionResult,
    SessionStatus, CHECK_GAME_STATUS_DELAY, MAX_CHECK_COUNT, WORD_LENGTH,
};

verus! {

/// Why a call was refused. A refused call changes nothing.
#[derive(Clone, Copy, Debug, PartialEq, Eq, Structural)]
pub enum SessionError {
    /// The session is in no status from which the action may proceed.
    WrongState,
    /// The guessed word is not five lowercase letters.
    InvalidWord,
    /// The oracle's reply is not of the kind the session waits for.
    UnexpectedReply,
    /// The action needs a session that the user does not have.
    UnknownUser,
    /// The reply answers another request than the one outstanding.
    MessageIdMismatch,
}

/// What the host must do after a transition.
#[derive(Clone, Debug, PartialEq)]
pub enum Command {
    /// Send `request` to the oracle, hand the id of the sent message to
    /// `request_sent`, and suspend the current call until the reply is in.
    SendAndWait(OracleAction),
    /// Reply to the current call.
    Reply(SessionEvent),
    /// Reply to the current call, and send `check` to this service itself
    /// after `delay` blocks.
    ReplyAndSchedule { reply: SessionEvent, check: SessionAction, delay: u32 },
    /// Send `event` to `user`, outside any call of theirs.
    Notify { user: ActorId, event: SessionEvent },
    /// Nothing to do.
    Nothing,
}

/// Five characters, each a lowercase ASCII letter.
pub open spec fn valid_word(w: Seq<char>) -> bool {
    &&& w.len() == WORD_LENGTH
    &&& forall|i: int| 0 <= i < w.len() ==> 'a' <= #[trigger] w[i] <= 'z'
}

/// The game that started at `start_block` has run out of time at `now`.
pub open spec fn is_expired(start_block: u32, now: u32) -> bool {
    now as int > start_block as int + CHECK_GAME_STATUS_DELAY as int
}

pub open spec fn cleared() -> (MessageId, MessageId) {
    (MessageId::spec_zero(), MessageId::spec_zero())
}

/// `StartGame` on one session, called as `call_id` at block `now`.
pub open spec fn start_game_step(s: Session, user: ActorId, call_id: MessageId, now: u32) -> Result<
    (Session, Command),
    SessionError,
> {
    match s.status {
        SessionStatus::StartGameWaiting | SessionStatus::CheckWordWaiting => Ok(
            (
                Session { msg_ids: (MessageId::spec_zero(), call_id), status: SessionStatus::StartGameSent, ..s },
                Command::SendAndWait(OracleAction::StartGame { user }),
            ),
        ),
        SessionStatus::ReplyReceived(SessionEvent::GameStarted) => Ok(
            (
                Session {
                    start_block: now,
                    check_count: 0,
                    msg_ids: cleared(),
                    status: SessionStatus::CheckWordWaiting,
                    result: SessionResult::Ongoing,
                },
                Command::ReplyAndSchedule {
                    reply: SessionEvent::GameStarted,
                    check: SessionAction::CheckGameStatus { user },
                    delay: CHECK_GAME_STATUS_DELAY,
                },
            ),
        ),
        SessionStatus::ReplyReceived(_) => Err(SessionError::UnexpectedReply),
        _ => Err(SessionError::WrongState),
    }
}

/// The session once the oracle has judged a guess: a win on five correct
/// positions, else a loss on the last allowed guess, else the feedback.
pub open spec fn word_checked_step(s: Session, correct_positions: Vec<u8>, contained_in_word: Vec<u8>) -> (
    Session,
    Command,
) {
    let n = (s.check_count + 1) as u8;
    if correct_positions@.len() == WORD_LENGTH {
        (
            Session { check_count: n, msg_ids: cleared(), status: SessionStatus::StartGameWaiting, result: SessionResult::Win, ..s },
            Command::Reply(SessionEvent::GameOver { result: SessionResult::Win }),
        )
    } else if n >= MAX_CHECK_COUNT {
        (
            Session { check_count: n, msg_ids: cleared(), status: SessionStatus::StartGameWaiting, result: SessionResult::Lose, ..s },
            Command::Reply(SessionEvent::GameOver { result: SessionResult::Lose }),
        )
    } else {
        (
            Session { check_count: n, msg_ids: cleared(), status: SessionStatus::CheckWordWaiting, result: SessionResult::Ongoing, ..s },
            Command::Reply(SessionEvent::WordChecked { correct_positions, contained_in_word }),
        )
    }
}

/// `CheckWord(word)` on one session, called as `call_id` at block `now`.
pub open spec fn check_word_step(s: Session, user: ActorId, call_id: MessageId, word: String, now: u32) -> Result<
    (Session, Command),
    SessionError,
> {
    match s.status {
        SessionStatus::CheckWordWaiting => if !valid_word(word@) {
            Err(SessionError::InvalidWord)
        } else if is_expired(s.start_block, now) {
            Ok(
                (
                    Session { msg_ids: cleared(), status: SessionStatus::StartGameWaiting, result: SessionResult::Lose, ..s },
                    Command::Reply(SessionEvent::GameOver { result: SessionResult::Lose }),
                ),
            )
        } else {
            Ok(
                (
                    Session { msg_ids: (MessageId::spec_zero(), call_id), status: SessionStatus::CheckWordSent, ..s },
                    Command::SendAndWait(OracleAction::CheckWord { user, word }),
                ),
            )
        },
        SessionStatus::ReplyReceived(SessionEvent::WordChecked { correct_positions, contained_in_word }) => Ok(
            word_checked_step(s, correct_positions, contained_in_word),
        ),
        SessionStatus::ReplyReceived(_) => Err(SessionError::UnexpectedReply),
        _ => Err(SessionError::WrongState),
    }
}

/// The deadline self-check on one session at block `now`: an expired game
/// that is still running is lost, and `user` is told so.
pub open spec fn check_status_step(s: Session, user: ActorId, now: u32) -> (Session, Command) {
    if is_expired(s.start_block, now) && s.result == SessionResult::Ongoing {
        (
            Session { msg_ids: cleared(), status: SessionStatus::StartGameWaiting, result: SessionResult::Lose, ..s },
            Command::Notify { user, event: SessionEvent::GameOver { result: SessionResult::Lose } },
        )
    } else {
        (s, Command::Nothing)
    }
}

/// The whole store's transition on `action` from `user`, called as `call_id`
/// at block `now`: the new map of sessions and the command, or the refusal.
pub open spec fn handle_step(
    sessions: Map<ActorId, Session>,
    user: ActorId,
    call_id: MessageId,
    action: SessionAction,
    now: u32,
) -> Result<(Map<ActorId, Session>, Command), SessionError> {
    match action {
        SessionAction::StartGame => {
            let s = if sessions.contains_key(user) {
                sessions[user]
            } else {
                Session::spec_fresh()
            };
            match start_game_step(s, user, call_id, now) {
                Ok((s2, c)) => Ok((sessions.insert(user, s2), c)),
                Err(e) => Err(e),
            }
        },
        SessionAction::CheckWord { word } => if !sessions.contains_key(user) {
            Err(SessionError::UnknownUser)
        } else {
            match check_word_step(sessions[user], user, call_id, word, now) {
                Ok((s2, c)) => Ok((sessions.insert(user, s2), c)),
                Err(e) => Err(e),
            }
        },
        SessionAction::CheckGameStatus { user: target } => if !sessions.contains_key(target) {
            Err(SessionError::UnknownUser)
        } else {
            let (s2, c) = check_status_step(sessions[target], target, now);
            Ok((sessions.insert(target, s2), c))
        },
    }
}

/// The user an oracle reply is about.
pub open spec fn reply_user(event: OracleEvent) -> ActorId {
    match event {
        OracleEvent::GameStarted { user } => user,
        OracleEvent::WordChecked { user, .. } => user,
    }
}

/// The store's transition on an oracle reply to the message `reply_to`: the
/// new map of sessions and the suspended call to wake, or the refusal.
pub open spec fn reply_step(sessions: Map<ActorId, Session>, reply_to: MessageId, event: OracleEvent) -> Result<
    (Map<ActorId, Session>, MessageId),
    SessionError,
> {
    let user = reply_user(event);
    if !sessions.contains_key(user) {
        Err(SessionError::UnknownUser)
    } else {
        let s = sessions[user];
        if reply_to != s.msg_ids.0 {
            Err(SessionError::MessageIdMismatch)
        } else {
            match event {
                OracleEvent::GameStarted { .. } => if s.status is StartGameSent {
                    Ok(
                        (
                            sessions.insert(
                                user,
                                Session { status: SessionStatus::ReplyReceived(SessionEvent::GameStarted), ..s },
                            ),
                            s.msg_ids.1,
                        ),
                    )
                } else {
                    Err(SessionError::UnexpectedReply)
                },
                OracleEvent::WordChecked { correct_positions, contained_in_word, .. } => if s.status is CheckWordSent {
                    Ok(
                        (
                            sessions.insert(
                                user,
                                Session {
                                    status: SessionStatus::ReplyReceived(
                                        SessionEvent::WordChecked { correct_positions, contained_in_word },
                                    ),
                                    ..s
                                },
                            ),
                            s.msg_ids.1,
                        ),
                    )
                } else {
                    Err(SessionError::UnexpectedReply)
                },
            }
        }
    }
}

/// The store once the host has sent the request of a `SendAndWait` for
/// `user` and the message got the id `request_id`.
pub open spec fn request_sent_step(sessions: Map<ActorId, Session>, user: ActorId, request_id: MessageId) -> Result<
    Map<ActorId, Session>,
    SessionError,
> {
    if !sessions.contains_key(user) {
        Err(SessionError::UnknownUser)
    } else {
        let s = sessions[user];
        if s.status is StartGameSent || s.status is CheckWordSent {
            Ok(sessions.insert(user, Session { msg_ids: (request_id, s.msg_ids.1), ..s }))
        } else {
            Err(SessionError::WrongState)
        }
    }
}

/// The word is five lowercase ASCII letters.
pub fn is_valid_word(word: &String) -> (r: bool)
    ensures
        r == valid_word(word@),
{
    let s = word.as_str();
    let n = s.unicode_len();
    if n != WORD_LENGTH {
        return false;
    }
    let mut i: usize = 0;
    while i < n
        invariant
            n == word@.len(),
            s@ == word@,
            i <= n,
            forall|j: int| 0 <= j < i ==> 'a' <= #[trigger] word@[j] <= 'z',
        decreases n - i,
    {
        let c = s.get_char(i);
        if !('a' <= c && c <= 'z') {
            return false;
        }
        i = i + 1;
    }
    true
}

/// Whether the game that started at `start_block` has run out of time at `now`.
pub fn expired(start_block: u32, now: u32) -> (r: bool)
    ensures
        r == is_expired(start_block, now),
{
    now as u64 > start_block as u64 + CHECK_GAME_STATUS_DELAY as u64
}

/// `StartGame` on one session; a refused call hands the session back as it was.
fn start_game_session(s: Session, user: ActorId, call_id: MessageId, now: u32) -> (r: (
    Session,
    Result<Command, SessionError>,
))
    requires
        s.wf(),
        call_id != MessageId::spec_zero(),
    ensures
        r.0.wf(),
        match start_game_step(s, user, call_id, now) {
            Ok((s2, c)) => r.0 == s2 && r.1 == Ok::<Command, SessionError>(c),
            Err(e) => r.0 == s && r.1 == Err::<Command, SessionError>(e),
        },
{
    match &s.status {
        SessionStatus::StartGameWaiting | SessionStatus::CheckWordWaiting => {
            let next = Session {
                start_block: s.start_block,
                check_count: s.check_count,
                msg_ids: (MessageId::zero(), call_id),
                status: SessionStatus::StartGameSent,
                result: s.result,
            };
            (next, Ok(Command::SendAndWait(OracleAction::StartGame { user })))
        },
        SessionStatus::ReplyReceived(SessionEvent::GameStarted) => {
            let next = Session {
                start_block: now,
                check_count: 0,
                msg_ids: (MessageId::zero(), MessageId::zero()),
                status: SessionStatus::CheckWordWaiting,
                result: SessionResult::Ongoing,
            };
            let command = Command::ReplyAndSchedule {
                reply: SessionEvent::GameStarted,
                check: SessionAction::CheckGameStatus { user },
                delay: CHECK_GAME_STATUS_DELAY,
            };
            (next, Ok(command))
        },
        SessionStatus::ReplyReceived(_) => (s, Err(SessionError::UnexpectedReply)),
        _ => (s, Err(SessionError::WrongState)),
    }
}

/// `CheckWord(word)` on one session; a refused call hands the session back as it was.
fn check_word_session(s: Session, user: ActorId, call_id: MessageId, word: String, now: u32) -> (r: (
    Session,
    Result<Command, SessionError>,
))
    requires
        s.wf(),
        call_id != MessageId::spec_zero(),
    ensures
        r.0.wf(),
        match check_word_step(s, user, call_id, word, now) {
            Ok((s2, c)) => r.0 == s2 && r.1 == Ok::<Command, SessionError>(c),
            Err(e) => r.0 == s && r.1 == Err::<Command, SessionError>(e),
        },
{
    let Session { start_block, check_count, msg_ids, status, result } = s;
    match status {
        SessionStatus::CheckWordWaiting => {
            if !is_valid_word(&word) {
                let same = Session { start_block, check_count, msg_ids, status: SessionStatus::CheckWordWaiting, result };
                (same, Err(SessionError::InvalidWord))
            } else if expired(start_block, now) {
                let next = Session {
                    start_block,
                    check_count,
                    msg_ids: (MessageId::zero(), MessageId::zero()),
                    status: SessionStatus::StartGameWaiting,
                    result: SessionResult::Lose,
                };
                (next, Ok(Command::Reply(SessionEvent::GameOver { result: SessionResult::Lose })))
            } else {
                let next = Session {
                    start_block,
                    check_count,
                    msg_ids: (MessageId::zero(), call_id),
                    status: SessionStatus::CheckWordSent,
                    result,
                };
                (next, Ok(Command::SendAndWait(OracleAction::CheckWord { user, word })))
            }
        },
        SessionStatus::ReplyReceived(SessionEvent::WordChecked { correct_positions, contained_in_word }) => {
            let n: u8 = check_count + 1;
            let cleared = (MessageId::zero(), MessageId::zero());
            if correct_positions.len() == WORD_LENGTH {
                let next = Session {
                    start_block,
                    check_count: n,
                    msg_ids: cleared,
                    status: SessionStatus::StartGameWaiting,
                    result: SessionResult::Win,
                };
                (next, Ok(Command::Reply(SessionEvent::GameOver { result: SessionResult::Win })))
            } else if n >= MAX_CHECK_COUNT {
                let next = Session {
                    start_block,
                    check_count: n,
                    msg_ids: cleared,
                    status: SessionStatus::StartGameWaiting,
                    result: SessionResult::Lose,
                };
                (next, Ok(Command::Reply(SessionEvent::GameOver { result: SessionResult::Lose })))
            } else {
                let next = Session {
                    start_block,
                    check_count: n,
                    msg_ids: cleared,
                    status: SessionStatus::CheckWordWaiting,
                    result: SessionResult::Ongoing,
                };
                (next, Ok(Command::Reply(SessionEvent::WordChecked { correct_positions, contained_in_word })))
            }
        },
        SessionStatus::ReplyReceived(event) => {
            let same = Session { start_block, check_count, msg_ids, status: SessionStatus::ReplyReceived(event), result };
            (same, Err(SessionError::UnexpectedReply))
        },
        other => {
            let same = Session { start_block, check_count, msg_ids, status: other, result };
            (same, Err(SessionError::WrongState))
        },
    }
}

/// The deadline self-check on one session.
fn check_status_session(s: Session, user: ActorId, now: u32) -> (r: (Session, Command))
    requires
        s.wf(),
    ensures
        r.0.wf(),
        r == check_status_step(s, user, now),
{
    if expired(s.start_block, now) && s.result == SessionResult::Ongoing {
        let next = Session {
            start_block: s.start_block,
            check_count: s.check_count,
            msg_ids: (MessageId::zero(), MessageId::zero()),
            status: SessionStatus::StartGameWaiting,
            result: SessionResult::Lose,
        };
        (next, Command::Notify { user, event: SessionEvent::GameOver { result: SessionResult::Lose } })
    } else {
        (s, Command::Nothing)
    }
}

impl GameSessionState {
    /// Handles `action` from `user`, made in the call `call_id` at block
    /// `now`: applies the transition and returns what the host must do, or
    /// refuses the call and changes nothing.
    pub fn handle(&mut self, user: ActorId, call_id: MessageId, action: SessionAction, now: u32) -> (r: Result<
        Command,
        SessionError,
    >)
        requires
            old(self).wf(),
            call_id != MessageId::spec_zero(),
        ensures
            final(self).wf(),
            final(self).wordle_program == old(self).wordle_program,
            match handle_step(old(self).sessions(), user, call_id, action, now) {
                Ok((m, c)) => r == Ok::<Command, SessionError>(c) && final(self).sessions() == m,
                Err(e) => r == Err::<Command, SessionError>(e) && final(self).sessions() == old(self).sessions(),
            },
    {
        let ghost before = self.sessions();
        match action {
            SessionAction::StartGame => {
                let s = match take_session(self, &user) {
                    Some(s) => s,
                    None => Session::fresh(),
                };
                let (next, r) = start_game_session(s, user, call_id, now);
                insert_or_update_session(self, user, next);
                proof {
                    if before.contains_key(user) {
                        assert(before.insert(user, before[user]) =~= before);
                    }
                    assert(before.insert(user, Session::spec_fresh()).insert(user, next) =~= before.insert(user, next));
                }
                r
            },
            SessionAction::CheckWord { word } => {
                match take_session(self, &user) {
                    None => Err(SessionError::UnknownUser),
                    Some(s) => {
                        let (next, r) = check_word_session(s, user, call_id, word, now);
                        insert_or_update_session(self, user, next);
                        proof {
                            assert(before.insert(user, before[user]) =~= before);
                            assert(before.insert(user, Session::spec_fresh()).insert(user, next) =~= before.insert(user, next));
                        }
                        r
                    },
                }
            },
            SessionAction::CheckGameStatus { user: target } => {
                match take_session(self, &target) {
                    None => Err(SessionError::UnknownUser),
                    Some(s) => {
                        let (next, c) = check_status_session(s, target, now);
                        insert_or_update_session(self, target, next);
                        proof {
                            assert(before.insert(target, Session::spec_fresh()).insert(target, next) =~= before.insert(target, next));
                        }
                        Ok(c)
                    },
                }
            },
        }
    }

    /// Correlates the oracle's reply `event` to the message `reply_to` with
    /// the session it answers: records the reply and returns the id of the
    /// suspended call to wake, or refuses the reply and changes nothing.
    pub fn handle_reply(&mut self, reply_to: MessageId, event: OracleEvent) -> (r: Result<MessageId, SessionError>)
        requires
            old(self).wf(),
        ensures
            final(self).wf(),
            final(self).wordle_program == old(self).wordle_program,
            match reply_step(old(self).sessions(), reply_to, event) {
                Ok((m, id)) => r == Ok::<MessageId, SessionError>(id) && final(self).sessions() == m,
                Err(e) => r == Err::<MessageId, SessionError>(e) && final(self).sessions() == old(self).sessions(),
            },
    {
        let ghost before = self.sessions();
        let user = match &event {
            OracleEvent::GameStarted { user } => *user,
            OracleEvent::WordChecked { user, .. } => *user,
        };
        let s = match take_session(self, &user) {
            None => return Err(SessionError::UnknownUser),
            Some(s) => s,
        };
        let Session { start_block, check_count, msg_ids, status, result } = s;
        let (status, r) = if reply_to != msg_ids.0 {
            (status, Err(SessionError::MessageIdMismatch))
        } else {
            match event {
                OracleEvent::GameStarted { .. } => match status {
                    SessionStatus::StartGameSent => (SessionStatus::ReplyReceived(SessionEvent::GameStarted), Ok(msg_ids.1)),
                    other => (other, Err(SessionError::UnexpectedReply)),
                },
                OracleEvent::WordChecked { correct_positions, contained_in_word, .. } => match status {
                    SessionStatus::CheckWordSent => (
                        SessionStatus::ReplyReceived(SessionEvent::WordChecked { correct_positions, contained_in_word }),
                        Ok(msg_ids.1),
                    ),
                    other => (other, Err(SessionError::UnexpectedReply)),
                },
            }
        };
        let next = Session { start_block, check_count, msg_ids, status, result };
        insert_or_update_session(self, user, next);
        proof {
            assert(before.insert(user, before[user]) =~= before);
            assert(before.insert(user, Session::spec_fresh()).insert(user, next) =~= before.insert(user, next));
        }
        r
    }

    /// Records `request_id`, the id the host gave to the request of the
    /// `SendAndWait` just returned for `user`, as the outstanding request that
    /// a reply must answer.
    pub fn request_sent(&mut self, user: ActorId, request_id: MessageId) -> (r: Result<(), SessionError>)
        requires
            old(self).wf(),
        ensures
            final(self).wf(),
            final(self).wordle_program == old(self).wordle_program,
            match request_sent_step(old(self).sessions(), user, request_id) {
                Ok(m) => r is Ok && final(self).sessions() == m,
                Err(e) => r == Err::<(), SessionError>(e) && final(self).sessions() == old(self).sessions(),
            },
    {
        let ghost before = self.sessions();
        let s = match take_session(self, &user) {
            None => return Err(SessionError::UnknownUser),
            Some(s) => s,
        };
        let sent = match &s.status {
            SessionStatus::StartGameSent | SessionStatus::CheckWordSent => true,
            _ => false,
        };
        let (next, r) = if sent {
            let next = Session {
                start_block: s.start_block,
                check_count: s.check_count,
                msg_ids: (request_id, s.msg_ids.1),
                status: s.status,
                result: s.result,
            };
            (next, Ok(()))
        } else {
            (s, Err(SessionError::WrongState))
        };
        insert_or_update_session(self, user, next);
        proof {
            assert(before.insert(user, before[user]) =~= before);
            assert(before.insert(user, Session::spec_fresh()).insert(user, next) =~= before.insert(user, next));
        }
        r
    }
}

} // verus!
