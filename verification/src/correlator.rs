//! The reply correlator: consumes an asynchronous reply from the
//! downstream game engine, matches it against the stored outbound
//! correlation identifier of the session that issued the request, applies
//! the outcome logic, and in every case releases the parked caller.
//!
//! A reply whose originating identifier does not match the stored one is
//! stale: it is discarded for state purposes, but the caller is still
//! released, so a mis-delivered reply can never strand a suspension.

use vstd::prelude::*;

use crate::io::{
    event_user, Effects, EffectsV, Outcome, Session, SessionStatus, SessionV, StatusV,
    WordleEvent, WordleEventV, TRIES_LIMIT, WORD_LENGTH,
};
use crate::proxy::Proxy;

verus! {

/// Whether an evaluation reply reports a won game: all five positions
/// correct and no letter merely contained elsewhere.
pub open spec fn full_match(correct_positions: Seq<u8>, contained_in_word: Seq<u8>) -> bool {
    correct_positions.len() == WORD_LENGTH && contained_in_word.len() == 0
}

/// The transition of one engine reply against the session of the user it
/// names. A matching start reply settles the status at `GameStarted` and
/// tells the user; a matching evaluation reply echoes the evaluation to
/// the user, counts the round, and decides the outcome — a full match
/// wins, a round count beyond the budget loses, anything else returns the
/// session to `Waiting`. A stale reply changes nothing. Either way the
/// parked inbound message is released.
pub open spec fn step_reply(s: SessionV, reply_to: u64, e: WordleEventV) -> (SessionV, EffectsV) {
    match e {
        WordleEventV::GameStarted { user } => {
            if reply_to == s.msg_ids.0 {
                (
                    SessionV { status: StatusV::GameStarted, ..s },
                    EffectsV {
                        sent_to_user: Some((user, StatusV::GameStarted)),
                        woke: Some(s.msg_ids.1),
                        ..EffectsV::empty()
                    },
                )
            } else {
                (s, EffectsV { woke: Some(s.msg_ids.1), ..EffectsV::empty() })
            }
        },
        WordleEventV::WordChecked { user, correct_positions, contained_in_word } => {
            if reply_to == s.msg_ids.0 {
                (
                    SessionV {
                        status: if full_match(correct_positions, contained_in_word) {
                            StatusV::GameOver(Outcome::Win)
                        } else if s.tries + 1 > TRIES_LIMIT {
                            StatusV::GameOver(Outcome::Lose)
                        } else {
                            StatusV::Waiting
                        },
                        tries: s.tries + 1,
                        ..s
                    },
                    EffectsV {
                        sent_to_user: Some(
                            (
                                user,
                                StatusV::WordChecked {
                                    user,
                                    correct_positions,
                                    contained_in_word,
                                },
                            ),
                        ),
                        woke: Some(s.msg_ids.1),
                        ..EffectsV::empty()
                    },
                )
            } else {
                (s, EffectsV { woke: Some(s.msg_ids.1), ..EffectsV::empty() })
            }
        },
    }
}

impl Proxy {
    /// Handles one engine reply: takes exactly the step that `step_reply`
    /// states on the named user's session, and returns the effects the
    /// host must perform. A reply for a user without a session is a
    /// protocol violation and is left out here; the host checks first and
    /// fails that one message. The round counter is a machine-bounded
    /// byte, so a matching evaluation reply asks for room for one more
    /// round.
    pub fn handle_reply(&mut self, reply_to: u64, event: WordleEvent) -> (r: Effects)
        requires
            old(self).wf(),
            old(self).state@.dom().contains(event_user(event@)),
            (event@ matches WordleEventV::WordChecked { .. } && reply_to == old(
                self,
            ).state@[event_user(event@)].msg_ids.0) ==> old(
                self,
            ).state@[event_user(event@)].tries < 255,
        ensures
            final(self).wf(),
            final(self).target_program_id == old(self).target_program_id,
            ({
                let step = step_reply(old(self).state@[event_user(event@)], reply_to, event@);
                &&& final(self).state@ == old(self).state@.insert(event_user(event@), step.0)
                &&& r@ == step.1
            }),
            final(self).state.users() == old(self).state.users(),
    {
        let ns: Session;
        let eff: Effects;
        let user: u64;
        match event {
            WordleEvent::GameStarted { user: u } => {
                user = u;
                let (msg_ids, status, tries) = {
                    let s = match self.state.get(user) {
                        Some(s) => s,
                        None => vstd::pervasive::unreached(),
                    };
                    (s.msg_ids, crate::io::copy_status(&s.session_status), s.tries_number)
                };
                if reply_to == msg_ids.0 {
                    ns = Session {
                        msg_ids,
                        session_status: SessionStatus::GameStarted,
                        tries_number: tries,
                    };
                    eff = Effects {
                        sent_to_user: Some((user, SessionStatus::GameStarted)),
                        woke: Some(msg_ids.1),
                        ..Effects::empty()
                    };
                } else {
                    ns = Session { msg_ids, session_status: status, tries_number: tries };
                    eff = Effects { woke: Some(msg_ids.1), ..Effects::empty() };
                }
            },
            WordleEvent::WordChecked { user: u, correct_positions, contained_in_word } => {
                user = u;
                let (msg_ids, status, tries) = {
                    let s = match self.state.get(user) {
                        Some(s) => s,
                        None => vstd::pervasive::unreached(),
                    };
                    (s.msg_ids, crate::io::copy_status(&s.session_status), s.tries_number)
                };
                if reply_to == msg_ids.0 {
                    let rounds = tries + 1;
                    let won = correct_positions.len() == WORD_LENGTH
                        && contained_in_word.len() == 0;
                    let next_status = if won {
                        SessionStatus::GameOver(Outcome::Win)
                    } else if rounds > TRIES_LIMIT {
                        SessionStatus::GameOver(Outcome::Lose)
                    } else {
                        SessionStatus::Waiting
                    };
                    ns = Session {
                        msg_ids,
                        session_status: next_status,
                        tries_number: rounds,
                    };
                    eff = Effects {
                        sent_to_user: Some(
                            (
                                user,
                                SessionStatus::WordChecked {
                                    user,
                                    correct_positions,
                                    contained_in_word,
                                },
                            ),
                        ),
                        woke: Some(msg_ids.1),
                        ..Effects::empty()
                    };
                } else {
                    ns = Session { msg_ids, session_status: status, tries_number: tries };
                    eff = Effects { woke: Some(msg_ids.1), ..Effects::empty() };
                }
            },
        }
        self.state.insert(user, ns);
        eff
    }
}

} // verus!
