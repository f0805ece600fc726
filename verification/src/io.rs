//! The message and session data types of the proxy, together with their
//! mathematical views.
//!
//! Identities are plain numbers here: a user is a `u64`, and so is a
//! message identifier. The host that carries the messages may use richer
//! identifiers; it converts at its edge.
//!
//! Each executable type has a view type (`...V`) that the contracts of the
//! whole crate speak of; view types carry `Seq` where the executable types
//! carry `Vec` or `String`.

use vstd::prelude::*;

verus! {

/// The outcome of a finished game.
#[derive(Debug, Clone, Copy, PartialEq, Eq, Structural)]
pub enum Outcome {
    Win,
    Lose,
}

/// The status of a session, as stored in the registry and as sent to the
/// user. `NotStarted`, `GameStarted`, `Waiting`, `MessageSent` and
/// `GameOver` are resting states of a stored session; `WordChecked`,
/// `InvalidWord` and `NoReplyReceived` are reply-only values, written out
/// to a caller at the moment a request is answered and never stored.
#[derive(Debug, Clone, PartialEq, Eq)]
pub enum SessionStatus {
    NotStarted,
    GameStarted,
    Waiting,
    MessageSent,
    GameOver(Outcome),
    WordChecked { user: u64, correct_positions: Vec<u8>, contained_in_word: Vec<u8> },
    InvalidWord,
    NoReplyReceived,
}

/// View of a `SessionStatus`.
#[verifier::ext_equal]
pub enum StatusV {
    NotStarted,
    GameStarted,
    Waiting,
    MessageSent,
    GameOver(Outcome),
    WordChecked { user: u64, correct_positions: Seq<u8>, contained_in_word: Seq<u8> },
    InvalidWord,
    NoReplyReceived,
}

impl View for SessionStatus {
    type V = StatusV;

    open spec fn view(&self) -> StatusV {
        match self {
            SessionStatus::NotStarted => StatusV::NotStarted,
            SessionStatus::GameStarted => StatusV::GameStarted,
            SessionStatus::Waiting => StatusV::Waiting,
            SessionStatus::MessageSent => StatusV::MessageSent,
            SessionStatus::GameOver(o) => StatusV::GameOver(*o),
            SessionStatus::WordChecked { user, correct_positions, contained_in_word } => (
                StatusV::WordChecked {
                    user: *user,
                    correct_positions: correct_positions@,
                    contained_in_word: contained_in_word@,
                }
            ),
            SessionStatus::InvalidWord => StatusV::InvalidWord,
            SessionStatus::NoReplyReceived => StatusV::NoReplyReceived,
        }
    }
}

impl StatusV {
    /// The statuses that a stored session may rest in. The reply-only
    /// values are excluded: they are emitted, never written back.
    pub open spec fn is_resting(self) -> bool {
        match self {
            StatusV::NotStarted => true,
            StatusV::GameStarted => true,
            StatusV::Waiting => true,
            StatusV::MessageSent => true,
            StatusV::GameOver(_) => true,
            _ => false,
        }
    }
}

/// Copies a status that carries no word-evaluation payload.
pub fn copy_status(s: &SessionStatus) -> (r: SessionStatus)
    requires
        s@.is_resting(),
    ensures
        r@ == s@,
{
    match s {
        SessionStatus::NotStarted => SessionStatus::NotStarted,
        SessionStatus::GameStarted => SessionStatus::GameStarted,
        SessionStatus::Waiting => SessionStatus::Waiting,
        SessionStatus::MessageSent => SessionStatus::MessageSent,
        SessionStatus::GameOver(o) => SessionStatus::GameOver(*o),
        _ => vstd::pervasive::unreached(),
    }
}

/// One per-user session: which downstream message it waits on and which
/// inbound message must be released, its status, and the count of
/// evaluation rounds completed.
#[derive(Debug, PartialEq, Eq)]
pub struct Session {
    /// `(sent, original)`: the identifier of the message sent to the game
    /// engine, and the identifier of the inbound message that caused it.
    pub msg_ids: (u64, u64),
    pub session_status: SessionStatus,
    pub tries_number: u8,
}

/// View of a `Session`.
#[verifier::ext_equal]
pub struct SessionV {
    pub msg_ids: (u64, u64),
    pub status: StatusV,
    pub tries: nat,
}

impl View for Session {
    type V = SessionV;

    open spec fn view(&self) -> SessionV {
        SessionV {
            msg_ids: self.msg_ids,
            status: self.session_status@,
            tries: self.tries_number as nat,
        }
    }
}

/// Copies a session whose status is a resting one.
pub fn copy_session(s: &Session) -> (r: Session)
    requires
        s@.status.is_resting(),
    ensures
        r@ == s@,
{
    Session {
        msg_ids: s.msg_ids,
        session_status: copy_status(&s.session_status),
        tries_number: s.tries_number,
    }
}

/// A user's request to the proxy.
#[derive(Debug, Clone, PartialEq, Eq)]
pub enum Action {
    StartGame,
    CheckWord(String),
    CheckGameStatus,
}

/// View of an `Action`.
#[verifier::ext_equal]
pub enum ActionV {
    StartGame,
    CheckWord(Seq<char>),
    CheckGameStatus,
}

impl View for Action {
    type V = ActionV;

    open spec fn view(&self) -> ActionV {
        match self {
            Action::StartGame => ActionV::StartGame,
            Action::CheckWord(w) => ActionV::CheckWord(w@),
            Action::CheckGameStatus => ActionV::CheckGameStatus,
        }
    }
}

/// A request forwarded to the downstream game engine.
#[derive(Debug, Clone, PartialEq, Eq)]
pub enum WordleAction {
    StartGame { user: u64 },
    CheckWord { user: u64, word: String },
}

/// View of a `WordleAction`.
#[verifier::ext_equal]
pub enum WordleActionV {
    StartGame { user: u64 },
    CheckWord { user: u64, word: Seq<char> },
}

impl View for WordleAction {
    type V = WordleActionV;

    open spec fn view(&self) -> WordleActionV {
        match self {
            WordleAction::StartGame { user } => WordleActionV::StartGame { user: *user },
            WordleAction::CheckWord { user, word } => (
                WordleActionV::CheckWord { user: *user, word: word@ }
            ),
        }
    }
}

/// An asynchronous reply from the downstream game engine.
#[derive(Debug, Clone, PartialEq, Eq)]
pub enum WordleEvent {
    GameStarted { user: u64 },
    WordChecked { user: u64, correct_positions: Vec<u8>, contained_in_word: Vec<u8> },
}

/// View of a `WordleEvent`.
#[verifier::ext_equal]
pub enum WordleEventV {
    GameStarted { user: u64 },
    WordChecked { user: u64, correct_positions: Seq<u8>, contained_in_word: Seq<u8> },
}

impl View for WordleEvent {
    type V = WordleEventV;

    open spec fn view(&self) -> WordleEventV {
        match self {
            WordleEvent::GameStarted { user } => WordleEventV::GameStarted { user: *user },
            WordleEvent::WordChecked { user, correct_positions, contained_in_word } => (
                WordleEventV::WordChecked {
                    user: *user,
                    correct_positions: correct_positions@,
                    contained_in_word: contained_in_word@,
                }
            ),
        }
    }
}

/// The user on whose session a reply operates.
pub open spec fn event_user(e: WordleEventV) -> u64 {
    match e {
        WordleEventV::GameStarted { user } => user,
        WordleEventV::WordChecked { user, .. } => user,
    }
}

/// A query of the read-only state surface.
#[derive(Debug, Clone, PartialEq, Eq)]
pub enum StateQuery {
    All,
    Player(u64),
}

/// The answer to a `StateQuery`.
#[derive(Debug, PartialEq, Eq)]
pub enum StateQueryReply {
    All(Vec<u64>),
    Game(Session),
}

/// Everything a single handling step asks the host to do. The host
/// performs the sends and the suspension after the step returns; the step
/// itself only decides.
#[derive(Debug, PartialEq, Eq)]
pub struct Effects {
    /// A request to send to the downstream game engine.
    pub sent_to_engine: Option<WordleAction>,
    /// A status message to send to a user directly (the watchdog's and the
    /// correlator's path).
    pub sent_to_user: Option<(u64, SessionStatus)>,
    /// A reply to the inbound message being handled.
    pub replied: Option<SessionStatus>,
    /// Whether a delayed self-directed status check is to be scheduled.
    pub scheduled_watchdog: bool,
    /// A bounded suspension of the caller, in blocks.
    pub waited_for: Option<u32>,
    /// The identifier of a parked inbound message to release.
    pub woke: Option<u64>,
}

/// View of `Effects`.
#[verifier::ext_equal]
pub struct EffectsV {
    pub sent_to_engine: Option<WordleActionV>,
    pub sent_to_user: Option<(u64, StatusV)>,
    pub replied: Option<StatusV>,
    pub scheduled_watchdog: bool,
    pub waited_for: Option<u32>,
    pub woke: Option<u64>,
}

impl View for Effects {
    type V = EffectsV;

    open spec fn view(&self) -> EffectsV {
        EffectsV {
            sent_to_engine: match &self.sent_to_engine {
                Some(a) => Some(a@),
                None => None,
            },
            sent_to_user: match &self.sent_to_user {
                Some(p) => Some((p.0, p.1@)),
                None => None,
            },
            replied: match &self.replied {
                Some(s) => Some(s@),
                None => None,
            },
            scheduled_watchdog: self.scheduled_watchdog,
            waited_for: self.waited_for,
            woke: self.woke,
        }
    }
}

impl Effects {
    /// A step that asks the host for nothing.
    pub fn empty() -> (r: Effects)
        ensures
            r@ == EffectsV::empty(),
    {
        Effects {
            sent_to_engine: None,
            sent_to_user: None,
            replied: None,
            scheduled_watchdog: false,
            waited_for: None,
            woke: None,
        }
    }
}

impl EffectsV {
    pub open spec fn empty() -> EffectsV {
        EffectsV {
            sent_to_engine: None,
            sent_to_user: None,
            replied: None,
            scheduled_watchdog: false,
            waited_for: None,
            woke: None,
        }
    }
}

/// The number of evaluation rounds beyond which a game is lost.
pub const TRIES_LIMIT: u8 = 3;

/// The required character count of a guess.
pub const WORD_LENGTH: usize = 5;

/// The delay, in blocks, after which the watchdog's self-directed status
/// check is delivered.
pub const WATCHDOG_DELAY: u32 = 200;

/// The suspension bound, in blocks, of a caller that started a game.
pub const START_WAIT: u32 = 3;

/// The suspension bound, in blocks, of a caller whose guess was forwarded,
/// and of the watchdog's own re-suspension.
pub const CHECK_WAIT: u32 = 20;

} // verus!
