use session_game::io::{
    Action, Effects, Outcome, Session, SessionStatus, StateQuery, StateQueryReply, WordleAction,
    WordleEvent, CHECK_WAIT, START_WAIT,
};
use session_game::proxy::Proxy;
use session_game::query::{
    all_player_address, get_original_message_id, get_sent_message_id, get_session_status,
    get_tries_number, state,
};
use session_game::registry::{is_exist_game, State};
use session_game::words::is_word_lowercase;

const USER: u64 = 3;
const TARGET_PROGRAM_ADDRESS: u64 = 2;
const SELF_ID: u64 = 1;

fn no_effects() -> Effects {
    Effects {
        sent_to_engine: None,
        sent_to_user: None,
        replied: None,
        scheduled_watchdog: false,
        waited_for: None,
        woke: None,
    }
}

#[test]
fn test_is_word_lowercase() {
    assert!(is_word_lowercase("hello".to_string()));
    assert!(!is_word_lowercase("HELLO".to_string()));
    assert!(!is_word_lowercase("HeLLo".to_string()));
    assert!(!is_word_lowercase("".to_string()));
    assert!(!is_word_lowercase(" ".to_string()));
    assert!(!is_word_lowercase("12345".to_string()));
}

#[test]
fn test_is_exist_game() {
    let user_id: u64 = 1;
    let mut games = State::new();
    let session = Session {
        msg_ids: (0, 0),
        session_status: SessionStatus::NotStarted,
        tries_number: 0,
    };
    games.insert(user_id, session);
    assert!(is_exist_game(&games, user_id));
    assert!(!is_exist_game(&games, 2));
}

#[test]
fn success_test() {
    let mut proxy = Proxy::init(TARGET_PROGRAM_ADDRESS);

    // The user starts a game; the proxy forwards downstream, schedules
    // the watchdog and parks the caller.
    let eff = proxy.handle(USER, 100, 1000, SELF_ID, Action::StartGame);
    assert_eq!(eff.sent_to_engine, Some(WordleAction::StartGame { user: USER }));
    assert!(eff.scheduled_watchdog);
    assert_eq!(eff.waited_for, Some(START_WAIT));

    // The engine confirms; the caller is released with `GameStarted`.
    let eff = proxy.handle_reply(1000, WordleEvent::GameStarted { user: USER });
    assert_eq!(eff.sent_to_user, Some((USER, SessionStatus::GameStarted)));
    assert_eq!(eff.woke, Some(100));

    // The host redelivers the released start request; the idempotence
    // guard moves the session to `Waiting` with no second downstream send.
    let eff = proxy.handle(USER, 100, 1001, SELF_ID, Action::StartGame);
    assert_eq!(eff, no_effects());

    // Four guesses, none a full match: the fourth loses the game.
    let words = ["hhhhh", "hqqqq", "qqqqq", "wwwww"];
    let evaluations: [(Vec<u8>, Vec<u8>); 4] = [
        (vec![0], vec![1, 2, 3, 4]),
        (vec![0], vec![]),
        (vec![], vec![]),
        (vec![], vec![]),
    ];
    for (i, (word, (correct, contained))) in
        words.iter().zip(evaluations.into_iter()).enumerate()
    {
        let inbound = 110 + i as u64;
        let sent = 1010 + i as u64;
        let eff = proxy.handle(USER, inbound, sent, SELF_ID, Action::CheckWord(word.to_string()));
        assert_eq!(
            eff.sent_to_engine,
            Some(WordleAction::CheckWord { user: USER, word: word.to_string() })
        );
        assert_eq!(eff.waited_for, Some(CHECK_WAIT));
        let eff = proxy.handle_reply(
            sent,
            WordleEvent::WordChecked {
                user: USER,
                correct_positions: correct.clone(),
                contained_in_word: contained.clone(),
            },
        );
        assert_eq!(
            eff.sent_to_user,
            Some((
                USER,
                SessionStatus::WordChecked {
                    user: USER,
                    correct_positions: correct,
                    contained_in_word: contained,
                }
            ))
        );
        assert_eq!(eff.woke, Some(inbound));
    }
    let eff = proxy.handle(USER, 120, 1020, SELF_ID, Action::CheckGameStatus);
    assert_eq!(eff.replied, Some(SessionStatus::GameOver(Outcome::Lose)));

    // Restarting the finished game begins afresh.
    let eff = proxy.handle(USER, 130, 1030, SELF_ID, Action::StartGame);
    assert_eq!(eff.sent_to_engine, Some(WordleAction::StartGame { user: USER }));
    let eff = proxy.handle_reply(1030, WordleEvent::GameStarted { user: USER });
    assert_eq!(eff.sent_to_user, Some((USER, SessionStatus::GameStarted)));
    let eff = proxy.handle(USER, 130, 1031, SELF_ID, Action::StartGame);
    assert_eq!(eff, no_effects());
    let eff = proxy.handle(USER, 131, 1032, SELF_ID, Action::CheckGameStatus);
    assert_eq!(eff.replied, Some(SessionStatus::Waiting));

    // This round the third guess is the word itself.
    let words = ["house", "human", "horse"];
    let evaluations: [(Vec<u8>, Vec<u8>); 3] = [
        (vec![0, 1], vec![3]),
        (vec![0], vec![2]),
        (vec![0, 1, 2, 3, 4], vec![]),
    ];
    for (i, (word, (correct, contained))) in
        words.iter().zip(evaluations.into_iter()).enumerate()
    {
        let inbound = 140 + i as u64;
        let sent = 1040 + i as u64;
        proxy.handle(USER, inbound, sent, SELF_ID, Action::CheckWord(word.to_string()));
        proxy.handle_reply(
            sent,
            WordleEvent::WordChecked {
                user: USER,
                correct_positions: correct,
                contained_in_word: contained,
            },
        );
    }
    let eff = proxy.handle(USER, 150, 1050, SELF_ID, Action::CheckGameStatus);
    assert_eq!(eff.replied, Some(SessionStatus::GameOver(Outcome::Win)));
}

#[test]
fn round_trip_start() {
    let mut proxy = Proxy::init(TARGET_PROGRAM_ADDRESS);
    let eff = proxy.handle(USER, 7, 70, SELF_ID, Action::StartGame);
    assert_eq!(eff.sent_to_engine, Some(WordleAction::StartGame { user: USER }));
    let eff = proxy.handle_reply(70, WordleEvent::GameStarted { user: USER });
    assert_eq!(eff.sent_to_user, Some((USER, SessionStatus::GameStarted)));
    assert_eq!(eff.woke, Some(7));
    assert_eq!(get_session_status(proxy.state, USER), SessionStatus::GameStarted);
}

#[test]
fn mango_full_match_wins() {
    let mut proxy = Proxy::init(TARGET_PROGRAM_ADDRESS);
    let mut games = State::new();
    games.insert(
        USER,
        Session { msg_ids: (0, 0), session_status: SessionStatus::Waiting, tries_number: 0 },
    );
    proxy.state = games;
    let eff = proxy.handle(USER, 8, 80, SELF_ID, Action::CheckWord("mango".to_string()));
    assert_eq!(
        eff.sent_to_engine,
        Some(WordleAction::CheckWord { user: USER, word: "mango".to_string() })
    );
    let eff = proxy.handle_reply(
        80,
        WordleEvent::WordChecked {
            user: USER,
            correct_positions: vec![0, 1, 2, 3, 4],
            contained_in_word: vec![],
        },
    );
    assert_eq!(eff.woke, Some(8));
    assert_eq!(get_tries_number(proxy.state, USER), 1);
    // Rebuild the winning run to read the status as well: a query
    // consumes the registry it inspects.
    let mut proxy = Proxy::init(TARGET_PROGRAM_ADDRESS);
    let mut games = State::new();
    games.insert(
        USER,
        Session { msg_ids: (0, 0), session_status: SessionStatus::Waiting, tries_number: 0 },
    );
    proxy.state = games;
    proxy.handle(USER, 8, 80, SELF_ID, Action::CheckWord("mango".to_string()));
    proxy.handle_reply(
        80,
        WordleEvent::WordChecked {
            user: USER,
            correct_positions: vec![0, 1, 2, 3, 4],
            contained_in_word: vec![],
        },
    );
    assert_eq!(
        get_session_status(proxy.state, USER),
        SessionStatus::GameOver(Outcome::Win)
    );
}

#[test]
fn four_misses_lose() {
    let mut proxy = Proxy::init(TARGET_PROGRAM_ADDRESS);
    let mut games = State::new();
    games.insert(
        USER,
        Session { msg_ids: (0, 0), session_status: SessionStatus::Waiting, tries_number: 0 },
    );
    proxy.state = games;
    for i in 0..4u64 {
        let eff = proxy.handle(USER, 10 + i, 90 + i, SELF_ID, Action::CheckWord("qqqqq".to_string()));
        assert!(eff.sent_to_engine.is_some());
        proxy.handle_reply(
            90 + i,
            WordleEvent::WordChecked {
                user: USER,
                correct_positions: vec![],
                contained_in_word: vec![],
            },
        );
    }
    assert_eq!(get_tries_number(proxy.state, USER), 4);
    let mut proxy2 = Proxy::init(TARGET_PROGRAM_ADDRESS);
    let mut games = State::new();
    games.insert(
        USER,
        Session { msg_ids: (0, 0), session_status: SessionStatus::Waiting, tries_number: 0 },
    );
    proxy2.state = games;
    for i in 0..4u64 {
        proxy2.handle(USER, 10 + i, 90 + i, SELF_ID, Action::CheckWord("qqqqq".to_string()));
        proxy2.handle_reply(
            90 + i,
            WordleEvent::WordChecked {
                user: USER,
                correct_positions: vec![],
                contained_in_word: vec![],
            },
        );
    }
    assert_eq!(
        get_session_status(proxy2.state, USER),
        SessionStatus::GameOver(Outcome::Lose)
    );
}

#[test]
fn watchdog_no_reply() {
    let mut proxy = Proxy::init(TARGET_PROGRAM_ADDRESS);
    // A start request leaves the session unreplied (`NotStarted`) until
    // the engine answers; here it never does.
    let eff = proxy.handle(SELF_ID, 20, 200, SELF_ID, Action::StartGame);
    assert!(eff.scheduled_watchdog);
    // The delayed self-directed status check arrives: source is the proxy
    // itself and the session is still unreplied.
    let eff = proxy.handle(SELF_ID, 21, 201, SELF_ID, Action::CheckGameStatus);
    assert_eq!(eff.sent_to_user, Some((SELF_ID, SessionStatus::NoReplyReceived)));
    assert_eq!(eff.waited_for, Some(CHECK_WAIT));
    assert_eq!(eff.replied, None);
    assert_eq!(get_session_status(proxy.state, SELF_ID), SessionStatus::GameStarted);
}

#[test]
fn status_probe_reads_only() {
    let mut proxy = Proxy::init(TARGET_PROGRAM_ADDRESS);
    // The same probe from an ordinary user is answered with the status as
    // it stands, unchanged.
    proxy.handle(USER, 22, 210, SELF_ID, Action::StartGame);
    let eff = proxy.handle(USER, 23, 211, SELF_ID, Action::CheckGameStatus);
    assert_eq!(eff.replied, Some(SessionStatus::NotStarted));
    assert_eq!(eff.sent_to_user, None);
    assert_eq!(get_session_status(proxy.state, USER), SessionStatus::NotStarted);
}

#[test]
fn invalid_word_and_rule() {
    // Wrong length and wrong case together: rejected.
    let mut proxy = Proxy::init(TARGET_PROGRAM_ADDRESS);
    let eff = proxy.handle(USER, 30, 300, SELF_ID, Action::CheckWord("AB".to_string()));
    assert_eq!(eff.replied, Some(SessionStatus::InvalidWord));
    assert_eq!(eff.sent_to_engine, None);

    // Wrong length alone (lowercase): not rejected by the rule.
    let mut proxy = Proxy::init(TARGET_PROGRAM_ADDRESS);
    let eff = proxy.handle(USER, 31, 301, SELF_ID, Action::CheckWord("ab".to_string()));
    assert_ne!(eff.replied, Some(SessionStatus::InvalidWord));

    // Wrong case alone (five characters): not rejected by the rule, and a
    // waiting session even forwards it.
    let mut proxy = Proxy::init(TARGET_PROGRAM_ADDRESS);
    let mut games = State::new();
    games.insert(
        USER,
        Session { msg_ids: (0, 0), session_status: SessionStatus::Waiting, tries_number: 0 },
    );
    proxy.state = games;
    let eff = proxy.handle(USER, 32, 302, SELF_ID, Action::CheckWord("ABCDE".to_string()));
    assert_eq!(
        eff.sent_to_engine,
        Some(WordleAction::CheckWord { user: USER, word: "ABCDE".to_string() })
    );
    assert_eq!(eff.replied, None);
}

#[test]
fn duplicate_guess_rejected() {
    let mut proxy = Proxy::init(TARGET_PROGRAM_ADDRESS);
    let mut games = State::new();
    games.insert(
        USER,
        Session { msg_ids: (0, 0), session_status: SessionStatus::Waiting, tries_number: 0 },
    );
    proxy.state = games;
    let eff = proxy.handle(USER, 40, 400, SELF_ID, Action::CheckWord("mango".to_string()));
    assert!(eff.sent_to_engine.is_some());
    // A second guess while the first is in flight is turned away without
    // a downstream send.
    let eff = proxy.handle(USER, 41, 401, SELF_ID, Action::CheckWord("melon".to_string()));
    assert_eq!(eff.replied, Some(SessionStatus::MessageSent));
    assert_eq!(eff.sent_to_engine, None);
    assert_eq!(get_session_status(proxy.state, USER), SessionStatus::MessageSent);
}

#[test]
fn start_idempotent_no_resend() {
    let mut proxy = Proxy::init(TARGET_PROGRAM_ADDRESS);
    proxy.handle(USER, 50, 500, SELF_ID, Action::StartGame);
    proxy.handle_reply(500, WordleEvent::GameStarted { user: USER });
    let eff = proxy.handle(USER, 51, 501, SELF_ID, Action::StartGame);
    assert_eq!(eff, no_effects());
    assert_eq!(get_session_status(proxy.state, USER), SessionStatus::Waiting);
}

#[test]
fn stale_reply_released() {
    let mut proxy = Proxy::init(TARGET_PROGRAM_ADDRESS);
    proxy.handle(USER, 60, 600, SELF_ID, Action::StartGame);
    // A reply correlating to some other message: no state change, no user
    // message, but the parked caller is still released.
    let eff = proxy.handle_reply(999, WordleEvent::GameStarted { user: USER });
    assert_eq!(eff.sent_to_user, None);
    assert_eq!(eff.woke, Some(60));
    assert_eq!(get_session_status(proxy.state, USER), SessionStatus::NotStarted);
}

#[test]
fn list_users_distinct() {
    let mut proxy = Proxy::init(TARGET_PROGRAM_ADDRESS);
    proxy.handle(3, 70, 700, SELF_ID, Action::StartGame);
    proxy.handle(5, 71, 701, SELF_ID, Action::StartGame);
    proxy.handle(4, 72, 702, SELF_ID, Action::CheckGameStatus);
    // A returning user adds no second entry.
    proxy.handle(5, 73, 703, SELF_ID, Action::CheckGameStatus);
    let mut users = all_player_address(proxy.state);
    users.sort();
    assert_eq!(users, vec![3, 4, 5]);
}

#[test]
fn query_surface() {
    let mut proxy = Proxy::init(TARGET_PROGRAM_ADDRESS);
    proxy.handle(USER, 80, 800, SELF_ID, Action::StartGame);
    assert_eq!(get_sent_message_id(proxy.state, USER), 800);
    let mut proxy = Proxy::init(TARGET_PROGRAM_ADDRESS);
    proxy.handle(USER, 80, 800, SELF_ID, Action::StartGame);
    assert_eq!(get_original_message_id(proxy.state, USER), 80);
    let mut proxy = Proxy::init(TARGET_PROGRAM_ADDRESS);
    proxy.handle(USER, 80, 800, SELF_ID, Action::StartGame);
    match state(proxy.state, StateQuery::All) {
        StateQueryReply::All(users) => assert_eq!(users, vec![USER]),
        other => panic!("unexpected reply: {:?}", other),
    }
    let mut proxy = Proxy::init(TARGET_PROGRAM_ADDRESS);
    proxy.handle(USER, 80, 800, SELF_ID, Action::StartGame);
    match state(proxy.state, StateQuery::Player(USER)) {
        StateQueryReply::Game(session) => {
            assert_eq!(session.msg_ids, (800, 80));
            assert_eq!(session.session_status, SessionStatus::NotStarted);
            assert_eq!(session.tries_number, 0);
        },
        other => panic!("unexpected reply: {:?}", other),
    }
}

#[test]
fn registry_get_absent() {
    let games = State::new();
    assert!(games.get(USER).is_none());
    let mut games = State::new();
    games.insert(
        USER,
        Session { msg_ids: (1, 2), session_status: SessionStatus::Waiting, tries_number: 1 },
    );
    let found = games.get(USER).expect("session must exist");
    assert_eq!(found.msg_ids, (1, 2));
    assert!(games.get(99).is_none());
}
