use vstd::prelude::*;

use crate::machine::{
    handle_step, is_expired, reply_step, reply_user, request_sent_step, valid_word, Command,
    SessionError,
};
use crate::store::GameSessionState;
use crate::types::{
    is_awaiting, ActorId, MessageId, OracleEvent, Session, SessionAction, SessionEvent, SessionResult,
    SessionStatus, MAX_CHECK_COUNT,
};

verus! {

/// Every record of the map is well formed.
pub open spec fn sessions_wf(m: Map<ActorId, Session>) -> bool {
    forall|u: ActorId| m.contains_key(u) ==> (#[trigger] m[u]).wf()
}

/// The map of a well-formed store holds well-formed records only.
pub proof fn lemma_store_sessions_wf(state: GameSessionState)
    requires
        state.wf(),
    ensures
        sessions_wf(state.sessions()),
{
    assert forall|u: ActorId| state.sessions().contains_key(u) implies (#[trigger] state.sessions()[u]).wf() by {
        let i = choose|i: int|
            0 <= i < state.user_to_session@.len() && (#[trigger] state.user_to_session@[i]).0 == u;
        state.lemma_sessions_at(i);
    }
}

/// Single flight: in a well-formed store a user's correlation pair is set
/// exactly while a call of theirs is suspended on an oracle request.
pub proof fn single_flight(state: GameSessionState, user: ActorId)
    requires
        state.wf(),
        state.sessions().contains_key(user),
    ensures
        state.sessions()[user].has_pending() <==> is_awaiting(state.sessions()[user].status),
{
    lemma_store_sessions_wf(state);
}

/// Single flight: a transition that sends a request to the oracle starts
/// from a record with no request outstanding.
pub proof fn no_second_request(
    sessions: Map<ActorId, Session>,
    user: ActorId,
    call_id: MessageId,
    action: SessionAction,
    now: u32,
)
    requires
        sessions_wf(sessions),
        handle_step(sessions, user, call_id, action, now) matches Ok((_, Command::SendAndWait(_))),
    ensures
        sessions.contains_key(user) ==> !sessions[user].has_pending(),
{
    if sessions.contains_key(user) {
        assert(sessions[user].wf());
    }
}

/// Attempt bound: in a well-formed record the guess count is at most six,
/// and a record with six guesses spent holds a concluded game, lost unless won.
pub proof fn attempt_bound(s: Session)
    requires
        s.wf(),
    ensures
        s.check_count <= MAX_CHECK_COUNT,
        s.check_count == MAX_CHECK_COUNT && s.result != SessionResult::Win ==> s.result == SessionResult::Lose,
{
}

/// Idle on conclusion: a transition that ends an ongoing game leaves the
/// record idle.
pub proof fn idle_on_conclusion(
    sessions: Map<ActorId, Session>,
    user: ActorId,
    call_id: MessageId,
    action: SessionAction,
    now: u32,
    u: ActorId,
)
    requires
        sessions_wf(sessions),
        sessions.contains_key(u),
        sessions[u].result == SessionResult::Ongoing,
        handle_step(sessions, user, call_id, action, now) matches Ok((m, _)) && m[u].result != SessionResult::Ongoing,
    ensures
        handle_step(sessions, user, call_id, action, now) matches Ok((m, _)) && m[u].status
            == SessionStatus::StartGameWaiting,
{
}

/// Oracle replies, and the recording of a sent request, leave every
/// outcome as it was.
pub proof fn replies_keep_outcome(
    sessions: Map<ActorId, Session>,
    reply_to: MessageId,
    event: OracleEvent,
    user: ActorId,
    request_id: MessageId,
    u: ActorId,
)
    requires
        sessions.contains_key(u),
    ensures
        reply_step(sessions, reply_to, event) matches Ok((m, _)) ==> m[u].result == sessions[u].result,
        request_sent_step(sessions, user, request_id) matches Ok(m) ==> m[u].result == sessions[u].result,
{
}

/// Deadline: past the deadline, a valid guess in a running game loses it,
/// whatever the word, and no request goes to the oracle.
pub proof fn deadline_check_word(
    sessions: Map<ActorId, Session>,
    user: ActorId,
    call_id: MessageId,
    word: String,
    now: u32,
)
    requires
        sessions.contains_key(user),
        sessions[user].status == SessionStatus::CheckWordWaiting,
        valid_word(word@),
        is_expired(sessions[user].start_block, now),
    ensures
        handle_step(sessions, user, call_id, SessionAction::CheckWord { word }, now) matches Ok((m, c)) && m[user].result
            == SessionResult::Lose && m[user].status == SessionStatus::StartGameWaiting && c == Command::Reply(
            SessionEvent::GameOver { result: SessionResult::Lose },
        ),
{
}

/// Deadline: past the deadline, the self-check loses a game still ongoing
/// and tells its user.
pub proof fn deadline_check_status(sessions: Map<ActorId, Session>, caller: ActorId, call_id: MessageId, user: ActorId, now: u32)
    requires
        sessions.contains_key(user),
        sessions[user].result == SessionResult::Ongoing,
        is_expired(sessions[user].start_block, now),
    ensures
        handle_step(sessions, caller, call_id, SessionAction::CheckGameStatus { user }, now) matches Ok((m, c))
            && m[user].result == SessionResult::Lose && m[user].status == SessionStatus::StartGameWaiting && c
            == (Command::Notify { user, event: SessionEvent::GameOver { result: SessionResult::Lose } }),
{
}

/// Correlation rejection: a reply to another message than the outstanding
/// request of its user is refused (and a refused reply changes nothing).
pub proof fn correlation_rejection(sessions: Map<ActorId, Session>, reply_to: MessageId, event: OracleEvent)
    requires
        sessions.contains_key(reply_user(event)),
        reply_to != sessions[reply_user(event)].msg_ids.0,
    ensures
        reply_step(sessions, reply_to, event) == Err::<(Map<ActorId, Session>, MessageId), SessionError>(
            SessionError::MessageIdMismatch,
        ),
{
}

/// Every transition keeps every record well formed: single flight and the
/// attempt bound hold of every state the store can reach.
pub proof fn transitions_keep_wf(
    sessions: Map<ActorId, Session>,
    user: ActorId,
    call_id: MessageId,
    action: SessionAction,
    now: u32,
    reply_to: MessageId,
    event: OracleEvent,
    request_id: MessageId,
)
    requires
        sessions_wf(sessions),
        call_id != MessageId::spec_zero(),
    ensures
        handle_step(sessions, user, call_id, action, now) matches Ok((m, _)) ==> sessions_wf(m),
        reply_step(sessions, reply_to, event) matches Ok((m, _)) ==> sessions_wf(m),
        request_sent_step(sessions, user, request_id) matches Ok(m) ==> sessions_wf(m),
{
    if sessions.contains_key(user) {
        assert(sessions[user].wf());
    }
    let target = match action {
        SessionAction::CheckGameStatus { user: t } => t,
        _ => user,
    };
    if sessions.contains_key(target) {
        assert(sessions[target].wf());
    }
    let ru = reply_user(event);
    if sessions.contains_key(ru) {
        assert(sessions[ru].wf());
    }
}

} // verus!
