use game_session::{
    expired, find_session, insert_or_update_session, is_valid_word, ActorId, Command, GameSessionState, MessageId,
    OracleAction, OracleEvent, Session, SessionAction, SessionError, SessionEvent, SessionResult, SessionStatus,
};

const USER: u64 = 5;
const SECRET: &str = "house";

fn actor(n: u64) -> ActorId {
    ActorId { high: 0, low: n as u128 }
}

fn message(n: u64) -> MessageId {
    MessageId { high: 0, low: n as u128 }
}

/// A host around the session store, with an oracle whose secret word is "house".
struct Host {
    state: GameSessionState,
    next_id: u64,
}

impl Host {
    fn new() -> Host {
        Host { state: GameSessionState::new(actor(100)), next_id: 1 }
    }

    fn fresh_id(&mut self) -> MessageId {
        let id = message(self.next_id);
        self.next_id += 1;
        id
    }

    fn judge(user: ActorId, word: &str) -> OracleEvent {
        let secret: Vec<char> = SECRET.chars().collect();
        let guess: Vec<char> = word.chars().collect();
        let mut correct_positions = Vec::new();
        let mut contained_in_word = Vec::new();
        for (i, c) in guess.iter().enumerate() {
            if secret[i] == *c {
                correct_positions.push(i as u8);
            } else if secret.contains(c) {
                contained_in_word.push(i as u8);
            }
        }
        OracleEvent::WordChecked { user, correct_positions, contained_in_word }
    }

    /// Runs one call of `user` to completion: sends what the machine asks,
    /// lets the oracle answer, and resumes the suspended call.
    fn call(&mut self, user: ActorId, action: SessionAction, now: u32) -> Result<Command, SessionError> {
        let call_id = self.fresh_id();
        let first = self.state.handle(user, call_id, action.clone(), now)?;
        let request = match first {
            Command::SendAndWait(request) => request,
            other => return Ok(other),
        };
        let request_id = self.fresh_id();
        self.state.request_sent(user, request_id).expect("request recorded");
        let reply = match request {
            OracleAction::StartGame { user } => OracleEvent::GameStarted { user },
            OracleAction::CheckWord { user, word } => Host::judge(user, &word),
        };
        let woken = self.state.handle_reply(request_id, reply).expect("reply correlated");
        assert_eq!(woken, call_id);
        self.state.handle(user, call_id, action, now)
    }

    fn session(&self, user: ActorId) -> &Session {
        let i = find_session(&self.state, &user).expect("session exists");
        &self.state.user_to_session[i].1
    }
}

fn started(now: u32) -> Host {
    let mut host = Host::new();
    host.call(actor(USER), SessionAction::StartGame, now).expect("game starts");
    host
}

fn check_word(host: &mut Host, word: &str, now: u32) -> Result<Command, SessionError> {
    host.call(actor(USER), SessionAction::CheckWord { word: word.to_string() }, now)
}

#[test]
fn test_start_game() {
    let host = started(1);
    assert_eq!(host.state.user_to_session.len(), 1);
    assert_eq!(host.state.user_to_session[0].1.status, SessionStatus::CheckWordWaiting);
}

#[test]
fn test_check_word() {
    let mut host = started(1);
    check_word(&mut host, "wwwww", 2).expect("word checked");
    assert_eq!(host.state.user_to_session[0].1.check_count, 1);
    assert_eq!(host.state.user_to_session[0].1.status, SessionStatus::CheckWordWaiting);
}

#[test]
fn test_game_timeout() {
    let mut host = started(2);
    host.call(actor(USER), SessionAction::CheckGameStatus { user: actor(USER) }, 220).expect("status checked");
    assert_eq!(host.state.user_to_session[0].1.result, SessionResult::Lose);
}

#[test]
fn test_game_win() {
    let mut host = started(1);
    let _ = check_word(&mut host, "house", 2);
    let _ = check_word(&mut host, "human", 3);
    let _ = check_word(&mut host, "horse", 4);
    assert_eq!(host.state.user_to_session[0].1.result, SessionResult::Win);
}

#[test]
fn test_game_lose() {
    let mut host = started(1);
    for i in 0..6u32 {
        let _ = check_word(&mut host, "wrong", 2 + i);
    }
    assert_eq!(host.state.user_to_session[0].1.result, SessionResult::Lose);
}

#[test]
fn start_game_replies_and_schedules_the_deadline_check() {
    let mut host = Host::new();
    let r = host.call(actor(USER), SessionAction::StartGame, 7).unwrap();
    assert_eq!(
        r,
        Command::ReplyAndSchedule {
            reply: SessionEvent::GameStarted,
            check: SessionAction::CheckGameStatus { user: actor(USER) },
            delay: 200,
        }
    );
    let s = host.session(actor(USER));
    assert_eq!(s.status, SessionStatus::CheckWordWaiting);
    assert_eq!(s.check_count, 0);
    assert_eq!(s.start_block, 7);
    assert_eq!(s.result, SessionResult::Ongoing);
    assert_eq!(s.msg_ids, (MessageId::zero(), MessageId::zero()));
}

#[test]
fn start_game_sends_one_request_and_suspends() {
    let mut host = Host::new();
    let r = host.state.handle(actor(USER), message(9), SessionAction::StartGame, 1).unwrap();
    assert_eq!(r, Command::SendAndWait(OracleAction::StartGame { user: actor(USER) }));
    assert_eq!(host.session(actor(USER)).status, SessionStatus::StartGameSent);
    assert_eq!(host.session(actor(USER)).msg_ids, (MessageId::zero(), message(9)));
    host.state.request_sent(actor(USER), message(10)).unwrap();
    assert_eq!(host.session(actor(USER)).msg_ids, (message(10), message(9)));
    // A second start while the first request is out is refused.
    let again = host.state.handle(actor(USER), message(11), SessionAction::StartGame, 1);
    assert_eq!(again, Err(SessionError::WrongState));
    assert_eq!(host.session(actor(USER)).msg_ids, (message(10), message(9)));
}

#[test]
fn wrong_guess_returns_feedback() {
    let mut host = started(1);
    let r = check_word(&mut host, "horse", 2).unwrap();
    assert_eq!(
        r,
        Command::Reply(SessionEvent::WordChecked { correct_positions: vec![0, 1, 3, 4], contained_in_word: vec![] })
    );
    assert_eq!(host.session(actor(USER)).result, SessionResult::Ongoing);
}

#[test]
fn six_wrong_guesses_lose() {
    let mut host = started(1);
    for i in 0..5u32 {
        let r = check_word(&mut host, "wrong", 2 + i).unwrap();
        assert!(matches!(r, Command::Reply(SessionEvent::WordChecked { .. })));
    }
    let r = check_word(&mut host, "wrong", 8).unwrap();
    assert_eq!(r, Command::Reply(SessionEvent::GameOver { result: SessionResult::Lose }));
    let s = host.session(actor(USER));
    assert_eq!(s.check_count, 6);
    assert_eq!(s.result, SessionResult::Lose);
    assert_eq!(s.status, SessionStatus::StartGameWaiting);
    // No seventh guess.
    assert_eq!(check_word(&mut host, "wrong", 9), Err(SessionError::WrongState));
    assert_eq!(host.session(actor(USER)).check_count, 6);
}

#[test]
fn correct_guess_wins_at_once() {
    let mut host = started(1);
    let r = check_word(&mut host, "house", 2).unwrap();
    assert_eq!(r, Command::Reply(SessionEvent::GameOver { result: SessionResult::Win }));
    let s = host.session(actor(USER));
    assert_eq!(s.check_count, 1);
    assert_eq!(s.result, SessionResult::Win);
    assert_eq!(s.status, SessionStatus::StartGameWaiting);
}

#[test]
fn timeout_notifies_the_user() {
    let mut host = started(2);
    let r = host.call(actor(77), SessionAction::CheckGameStatus { user: actor(USER) }, 203).unwrap();
    assert_eq!(
        r,
        Command::Notify { user: actor(USER), event: SessionEvent::GameOver { result: SessionResult::Lose } }
    );
    let s = host.session(actor(USER));
    assert_eq!(s.result, SessionResult::Lose);
    assert_eq!(s.status, SessionStatus::StartGameWaiting);
    // A second firing changes nothing.
    let r = host.call(actor(77), SessionAction::CheckGameStatus { user: actor(USER) }, 400).unwrap();
    assert_eq!(r, Command::Nothing);
}

#[test]
fn status_check_on_the_boundary_does_nothing() {
    let mut host = started(2);
    let r = host.call(actor(USER), SessionAction::CheckGameStatus { user: actor(USER) }, 202).unwrap();
    assert_eq!(r, Command::Nothing);
    assert_eq!(host.session(actor(USER)).result, SessionResult::Ongoing);
    assert_eq!(host.session(actor(USER)).status, SessionStatus::CheckWordWaiting);
}

#[test]
fn status_check_keeps_a_won_game() {
    let mut host = started(2);
    check_word(&mut host, "house", 3).unwrap();
    let r = host.call(actor(USER), SessionAction::CheckGameStatus { user: actor(USER) }, 500).unwrap();
    assert_eq!(r, Command::Nothing);
    assert_eq!(host.session(actor(USER)).result, SessionResult::Win);
}

#[test]
fn late_guess_loses_even_when_correct() {
    let mut host = started(2);
    let r = check_word(&mut host, "house", 203).unwrap();
    assert_eq!(r, Command::Reply(SessionEvent::GameOver { result: SessionResult::Lose }));
    let s = host.session(actor(USER));
    assert_eq!(s.result, SessionResult::Lose);
    assert_eq!(s.check_count, 0);
}

#[test]
fn guess_on_the_boundary_is_judged() {
    let mut host = started(2);
    let r = check_word(&mut host, "house", 202).unwrap();
    assert_eq!(r, Command::Reply(SessionEvent::GameOver { result: SessionResult::Win }));
}

#[test]
fn malformed_words_are_refused_without_change() {
    let mut host = started(1);
    for word in ["hous", "House", "houses", "hou5e", ""] {
        assert_eq!(check_word(&mut host, word, 2), Err(SessionError::InvalidWord));
        let s = host.session(actor(USER));
        assert_eq!(s.status, SessionStatus::CheckWordWaiting);
        assert_eq!(s.check_count, 0);
        assert_eq!(s.result, SessionResult::Ongoing);
    }
}

#[test]
fn valid_word_shape() {
    assert!(is_valid_word(&"house".to_string()));
    assert!(is_valid_word(&"zzzzz".to_string()));
    assert!(!is_valid_word(&"hous".to_string()));
    assert!(!is_valid_word(&"hOuse".to_string()));
    assert!(!is_valid_word(&"h\u{e9}use".to_string()));
    assert!(!is_valid_word(&"houses".to_string()));
}

#[test]
fn expiry_is_strict() {
    assert!(!expired(10, 210));
    assert!(expired(10, 211));
    assert!(!expired(u32::MAX, u32::MAX));
    assert!(expired(0, u32::MAX));
}

#[test]
fn mismatched_reply_is_refused_without_change() {
    let mut host = Host::new();
    host.state.handle(actor(USER), message(9), SessionAction::StartGame, 1).unwrap();
    host.state.request_sent(actor(USER), message(10)).unwrap();
    let r = host.state.handle_reply(message(11), OracleEvent::GameStarted { user: actor(USER) });
    assert_eq!(r, Err(SessionError::MessageIdMismatch));
    let s = host.session(actor(USER));
    assert_eq!(s.status, SessionStatus::StartGameSent);
    assert_eq!(s.msg_ids, (message(10), message(9)));
}

#[test]
fn reply_of_the_wrong_kind_is_refused() {
    let mut host = Host::new();
    host.state.handle(actor(USER), message(9), SessionAction::StartGame, 1).unwrap();
    host.state.request_sent(actor(USER), message(10)).unwrap();
    let r = host.state.handle_reply(
        message(10),
        OracleEvent::WordChecked { user: actor(USER), correct_positions: vec![], contained_in_word: vec![] },
    );
    assert_eq!(r, Err(SessionError::UnexpectedReply));
    assert_eq!(host.session(actor(USER)).status, SessionStatus::StartGameSent);
}

#[test]
fn reply_for_an_unknown_user_is_refused() {
    let mut host = Host::new();
    let r = host.state.handle_reply(message(1), OracleEvent::GameStarted { user: actor(USER) });
    assert_eq!(r, Err(SessionError::UnknownUser));
    assert!(host.state.user_to_session.is_empty());
}

#[test]
fn actions_for_an_unknown_user_are_refused() {
    let mut host = Host::new();
    let r = host.state.handle(actor(USER), message(1), SessionAction::CheckWord { word: "house".to_string() }, 1);
    assert_eq!(r, Err(SessionError::UnknownUser));
    let r = host.state.handle(actor(USER), message(2), SessionAction::CheckGameStatus { user: actor(USER) }, 1);
    assert_eq!(r, Err(SessionError::UnknownUser));
    assert_eq!(host.state.request_sent(actor(USER), message(3)), Err(SessionError::UnknownUser));
    assert!(host.state.user_to_session.is_empty());
}

#[test]
fn request_sent_needs_a_request_out() {
    let mut host = started(1);
    assert_eq!(host.state.request_sent(actor(USER), message(50)), Err(SessionError::WrongState));
    assert_eq!(host.session(actor(USER)).msg_ids, (MessageId::zero(), MessageId::zero()));
}

#[test]
fn guess_before_start_reply_is_refused() {
    let mut host = Host::new();
    host.state.handle(actor(USER), message(9), SessionAction::StartGame, 1).unwrap();
    let r = host.state.handle(actor(USER), message(12), SessionAction::CheckWord { word: "house".to_string() }, 1);
    assert_eq!(r, Err(SessionError::WrongState));
}

#[test]
fn start_is_tolerated_mid_game_and_resets_the_count() {
    let mut host = started(1);
    check_word(&mut host, "wrong", 2).unwrap();
    assert_eq!(host.session(actor(USER)).check_count, 1);
    host.call(actor(USER), SessionAction::StartGame, 30).unwrap();
    let s = host.session(actor(USER));
    assert_eq!(s.check_count, 0);
    assert_eq!(s.start_block, 30);
    assert_eq!(s.status, SessionStatus::CheckWordWaiting);
}

#[test]
fn a_new_game_after_a_loss() {
    let mut host = started(1);
    check_word(&mut host, "house", 300).unwrap();
    assert_eq!(host.session(actor(USER)).result, SessionResult::Lose);
    host.call(actor(USER), SessionAction::StartGame, 301).unwrap();
    assert_eq!(host.session(actor(USER)).result, SessionResult::Ongoing);
    assert_eq!(host.state.user_to_session.len(), 1);
}

#[test]
fn users_keep_separate_records() {
    let mut host = started(1);
    host.call(actor(6), SessionAction::StartGame, 2).unwrap();
    check_word(&mut host, "wrong", 3).unwrap();
    assert_eq!(host.state.user_to_session.len(), 2);
    assert_eq!(host.session(actor(USER)).check_count, 1);
    assert_eq!(host.session(actor(6)).check_count, 0);
}

#[test]
fn store_insert_and_update() {
    let mut state = GameSessionState::new(actor(100));
    assert_eq!(find_session(&state, &actor(1)), None);
    insert_or_update_session(&mut state, actor(1), Session::fresh());
    insert_or_update_session(&mut state, actor(2), Session::fresh());
    let mut s = Session::fresh();
    s.check_count = 3;
    insert_or_update_session(&mut state, actor(1), s);
    assert_eq!(state.user_to_session.len(), 2);
    assert_eq!(find_session(&state, &actor(1)), Some(0));
    assert_eq!(find_session(&state, &actor(2)), Some(1));
    assert_eq!(state.user_to_session[0].1.check_count, 3);
    assert_eq!(state.wordle_program, actor(100));
}

#[test]
fn message_id_zero() {
    assert!(MessageId::zero().is_zero());
    assert!(!message(1).is_zero());
    assert!(!MessageId { high: 1, low: 0 }.is_zero());
}
