//! The proxy state machine: validates and dispatches inbound user
//! requests, drives the status transitions, decides what is forwarded to
//! the downstream game engine, and asks the host to park or release the
//! caller.
//!
//! Every transition is stated as a spec function from session view and
//! request to the session view after the step and the effects the host is
//! asked to perform; `handle` is proved to follow those functions exactly.
//! The host supplies the ambient identifiers: the sender of the inbound
//! message, that message's own identifier, the identifier a downstream
//! send would be given, and the proxy's own address.

use vstd::prelude::*;

use crate::io::{
    Action, ActionV, Effects, EffectsV, Session, SessionStatus, SessionV, StatusV, WordleAction,
    WordleActionV, CHECK_WAIT, START_WAIT, WORD_LENGTH,
};
use crate::registry::State;
use crate::words::{is_word_lowercase, word_rejected};

verus! {

/// The session a user is given on first contact.
pub open spec fn fresh_session() -> SessionV {
    SessionV { msg_ids: (0, 0), status: StatusV::NotStarted, tries: 0 }
}

/// The registry after the lazy creation step: handling begins by giving a
/// first-contact user a fresh session.
pub open spec fn pre_state(m: Map<u64, SessionV>, user: u64) -> Map<u64, SessionV> {
    if m.dom().contains(user) {
        m
    } else {
        m.insert(user, fresh_session())
    }
}

/// The transition for a start request. A session not yet started sends a
/// start request downstream, records the correlation pair, schedules the
/// watchdog and parks the caller; a session already started falls back to
/// `Waiting` without a second downstream send; a finished session starts a
/// fresh game with the attempt counter reset; anything else is ignored.
pub open spec fn step_start(s: SessionV, user: u64, inbound_id: u64, sent_id: u64) -> (
    SessionV,
    EffectsV,
) {
    match s.status {
        StatusV::NotStarted => (
            SessionV { msg_ids: (sent_id, inbound_id), ..s },
            EffectsV {
                sent_to_engine: Some(WordleActionV::StartGame { user }),
                scheduled_watchdog: true,
                waited_for: Some(START_WAIT),
                ..EffectsV::empty()
            },
        ),
        StatusV::GameStarted => (SessionV { status: StatusV::Waiting, ..s }, EffectsV::empty()),
        StatusV::GameOver(_) => (
            SessionV { msg_ids: (sent_id, inbound_id), status: StatusV::GameStarted, tries: 0 },
            EffectsV {
                sent_to_engine: Some(WordleActionV::StartGame { user }),
                waited_for: Some(START_WAIT),
                ..EffectsV::empty()
            },
        ),
        _ => (s, EffectsV::empty()),
    }
}

/// The transition for a guess. A session with a request already in flight
/// is told so at once, with no second downstream send; then the word is
/// validated (rejected only when the length check and the case check both
/// fail); a waiting session forwards the guess, records the correlation
/// pair and guards itself with `MessageSent`; a finished session answers
/// with its terminal status; anything else is ignored.
pub open spec fn step_check_word(
    s: SessionV,
    user: u64,
    inbound_id: u64,
    sent_id: u64,
    w: Seq<char>,
) -> (SessionV, EffectsV) {
    if s.status is MessageSent {
        (s, EffectsV { replied: Some(StatusV::MessageSent), ..EffectsV::empty() })
    } else if word_rejected(w) {
        (s, EffectsV { replied: Some(StatusV::InvalidWord), ..EffectsV::empty() })
    } else if s.status is Waiting {
        (
            SessionV { msg_ids: (sent_id, inbound_id), status: StatusV::MessageSent, ..s },
            EffectsV {
                sent_to_engine: Some(WordleActionV::CheckWord { user, word: w }),
                waited_for: Some(CHECK_WAIT),
                ..EffectsV::empty()
            },
        )
    } else if s.status is GameOver {
        (s, EffectsV { replied: Some(s.status), ..EffectsV::empty() })
    } else {
        (s, EffectsV::empty())
    }
}

/// The transition for a status probe. When the probe comes from the proxy
/// itself — the watchdog firing — and the session is still unreplied, the
/// no-reply outcome is sent out, the status moves to `GameStarted` so the
/// watchdog cannot loop, and the caller is parked again; every other probe
/// is answered with the status as it stands, with no state change.
pub open spec fn step_check_status(s: SessionV, source: u64, program_id: u64) -> (
    SessionV,
    EffectsV,
) {
    if s.status is NotStarted && source == program_id {
        (
            SessionV { status: StatusV::GameStarted, ..s },
            EffectsV {
                sent_to_user: Some((source, StatusV::NoReplyReceived)),
                waited_for: Some(CHECK_WAIT),
                ..EffectsV::empty()
            },
        )
    } else {
        (s, EffectsV { replied: Some(s.status), ..EffectsV::empty() })
    }
}

/// The transition of one inbound request against one session.
pub open spec fn step_action(
    s: SessionV,
    source: u64,
    inbound_id: u64,
    sent_id: u64,
    program_id: u64,
    a: ActionV,
) -> (SessionV, EffectsV) {
    match a {
        ActionV::StartGame => step_start(s, source, inbound_id, sent_id),
        ActionV::CheckWord(w) => step_check_word(s, source, inbound_id, sent_id, w),
        ActionV::CheckGameStatus => step_check_status(s, source, program_id),
    }
}

/// The proxy process: the downstream engine's address and the session
/// registry.
pub struct Proxy {
    /// The address of the downstream game engine; every forwarded request
    /// goes there.
    pub target_program_id: u64,
    /// The registry of all sessions.
    pub state: State,
}

impl Proxy {
    pub open spec fn wf(self) -> bool {
        self.state.wf()
    }

    /// Brings the proxy up: it is told the engine's address and starts
    /// with no sessions.
    pub fn init(target_program_id: u64) -> (p: Proxy)
        ensures
            p.wf(),
            p.target_program_id == target_program_id,
            p.state@ == Map::<u64, SessionV>::empty(),
            p.state.users() == Seq::<u64>::empty(),
    {
        Proxy { target_program_id, state: State::new() }
    }

    /// Handles one inbound request: creates the sender's session on first
    /// contact, then takes exactly the step that `step_action` states, and
    /// returns the effects the host must perform. `inbound_id` is the
    /// identifier of the message being handled, `sent_id` the identifier
    /// the host gives the downstream send if one is asked for, and
    /// `program_id` the proxy's own address.
    pub fn handle(
        &mut self,
        source: u64,
        inbound_id: u64,
        sent_id: u64,
        program_id: u64,
        action: Action,
    ) -> (r: Effects)
        requires
            old(self).wf(),
        ensures
            final(self).wf(),
            final(self).target_program_id == old(self).target_program_id,
            ({
                let m0 = pre_state(old(self).state@, source);
                let step = step_action(m0[source], source, inbound_id, sent_id, program_id, action@);
                &&& final(self).state@ == m0.insert(source, step.0)
                &&& r@ == step.1
            }),
            final(self).state.users() == if old(self).state@.dom().contains(source) {
                old(self).state.users()
            } else {
                old(self).state.users().push(source)
            },
    {
        let ghost m0 = pre_state(old(self).state@, source);
        if !self.state.contains(source) {
            self.state.insert(
                source,
                Session {
                    msg_ids: (0, 0),
                    session_status: SessionStatus::NotStarted,
                    tries_number: 0,
                },
            );
        }
        let (msg_ids, status, tries) = {
            let s = match self.state.get(source) {
                Some(s) => s,
                None => vstd::pervasive::unreached(),
            };
            (s.msg_ids, crate::io::copy_status(&s.session_status), s.tries_number)
        };
        proof {
            assert(self.state@ == m0);
            assert(status@ == m0[source].status);
        }
        let ns: Session;
        let eff: Effects;
        match action {
            Action::StartGame => {
                match status {
                    SessionStatus::NotStarted => {
                        ns = Session {
                            msg_ids: (sent_id, inbound_id),
                            session_status: SessionStatus::NotStarted,
                            tries_number: tries,
                        };
                        eff = Effects {
                            sent_to_engine: Some(WordleAction::StartGame { user: source }),
                            scheduled_watchdog: true,
                            waited_for: Some(START_WAIT),
                            ..Effects::empty()
                        };
                    },
                    SessionStatus::GameStarted => {
                        ns = Session {
                            msg_ids,
                            session_status: SessionStatus::Waiting,
                            tries_number: tries,
                        };
                        eff = Effects::empty();
                    },
                    SessionStatus::GameOver(_) => {
                        ns = Session {
                            msg_ids: (sent_id, inbound_id),
                            session_status: SessionStatus::GameStarted,
                            tries_number: 0,
                        };
                        eff = Effects {
                            sent_to_engine: Some(WordleAction::StartGame { user: source }),
                            waited_for: Some(START_WAIT),
                            ..Effects::empty()
                        };
                    },
                    other => {
                        ns = Session { msg_ids, session_status: other, tries_number: tries };
                        eff = Effects::empty();
                    },
                }
            },
            Action::CheckWord(word) => {
                let in_flight = matches!(status, SessionStatus::MessageSent);
                if in_flight {
                    ns = Session { msg_ids, session_status: status, tries_number: tries };
                    eff = Effects {
                        replied: Some(SessionStatus::MessageSent),
                        ..Effects::empty()
                    };
                } else {
                    let n = word.as_str().unicode_len();
                    if n != WORD_LENGTH && !is_word_lowercase(word.clone()) {
                        ns = Session { msg_ids, session_status: status, tries_number: tries };
                        eff = Effects {
                            replied: Some(SessionStatus::InvalidWord),
                            ..Effects::empty()
                        };
                    } else {
                        match status {
                            SessionStatus::Waiting => {
                                ns = Session {
                                    msg_ids: (sent_id, inbound_id),
                                    session_status: SessionStatus::MessageSent,
                                    tries_number: tries,
                                };
                                eff = Effects {
                                    sent_to_engine: Some(
                                        WordleAction::CheckWord { user: source, word },
                                    ),
                                    waited_for: Some(CHECK_WAIT),
                                    ..Effects::empty()
                                };
                            },
                            SessionStatus::GameOver(o) => {
                                ns = Session {
                                    msg_ids,
                                    session_status: SessionStatus::GameOver(o),
                                    tries_number: tries,
                                };
                                eff = Effects {
                                    replied: Some(SessionStatus::GameOver(o)),
                                    ..Effects::empty()
                                };
                            },
                            other => {
                                ns = Session {
                                    msg_ids,
                                    session_status: other,
                                    tries_number: tries,
                                };
                                eff = Effects::empty();
                            },
                        }
                    }
                }
            },
            Action::CheckGameStatus => {
                let unreplied = matches!(status, SessionStatus::NotStarted);
                if unreplied && source == program_id {
                    ns = Session {
                        msg_ids,
                        session_status: SessionStatus::GameStarted,
                        tries_number: tries,
                    };
                    eff = Effects {
                        sent_to_user: Some((source, SessionStatus::NoReplyReceived)),
                        waited_for: Some(CHECK_WAIT),
                        ..Effects::empty()
                    };
                } else {
                    let reply = crate::io::copy_status(&status);
                    ns = Session { msg_ids, session_status: status, tries_number: tries };
                    eff = Effects { replied: Some(reply), ..Effects::empty() };
                }
            },
        }
        self.state.insert(source, ns);
        eff
    }
}

} // verus!
