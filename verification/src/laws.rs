//! The proved laws of the state machine: what holds of every session, on
//! every input, across the transition functions that `handle` and
//! `handle_reply` are proved to follow exactly.

use vstd::prelude::*;

use crate::correlator::{full_match, step_reply};
use crate::io::{ActionV, EffectsV, Outcome, SessionV, StatusV, WordleEventV, TRIES_LIMIT};
use crate::proxy::{step_action, step_check_word, step_start};
use crate::words::word_rejected;

verus! {

/// The round counter never decreases across a reply, and a processed —
/// matching — evaluation reply increases it by exactly one; every other
/// reply leaves it untouched.
pub proof fn lemma_tries_counts_evaluations(s: SessionV, reply_to: u64, e: WordleEventV)
    ensures
        step_reply(s, reply_to, e).0.tries >= s.tries,
        (e matches WordleEventV::WordChecked { .. } && reply_to == s.msg_ids.0) ==> step_reply(
            s,
            reply_to,
            e,
        ).0.tries == s.tries + 1,
        !(e matches WordleEventV::WordChecked { .. } && reply_to == s.msg_ids.0) ==> step_reply(
            s,
            reply_to,
            e,
        ).0.tries == s.tries,
{
}

/// No user request counts a round: a request leaves the round counter
/// alone, except that starting a finished game begins afresh at zero.
pub proof fn lemma_tries_untouched_by_requests(
    s: SessionV,
    source: u64,
    inbound_id: u64,
    sent_id: u64,
    program_id: u64,
    a: ActionV,
)
    ensures
        ({
            let t = step_action(s, source, inbound_id, sent_id, program_id, a).0.tries;
            t == s.tries || (a is StartGame && s.status is GameOver && t == 0)
        }),
{
}

/// A matching evaluation reply that reports a full match: all five
/// positions correct and nothing merely contained.
pub open spec fn winning_reply(s: SessionV, reply_to: u64, e: WordleEventV) -> bool {
    reply_to == s.msg_ids.0 && match e {
        WordleEventV::WordChecked { correct_positions, contained_in_word, .. } => full_match(
            correct_positions,
            contained_in_word,
        ),
        _ => false,
    }
}

/// A matching evaluation reply that reports less than a full match when
/// the round being counted takes the session past its budget.
pub open spec fn losing_reply(s: SessionV, reply_to: u64, e: WordleEventV) -> bool {
    reply_to == s.msg_ids.0 && s.tries + 1 > TRIES_LIMIT && match e {
        WordleEventV::WordChecked { correct_positions, contained_in_word, .. } => !full_match(
            correct_positions,
            contained_in_word,
        ),
        _ => false,
    }
}

/// A game is won by a reply exactly when a matching evaluation reply
/// reports a full match, and lost by one exactly when a matching
/// evaluation reply reports less than a full match with the round budget
/// already spent.
pub proof fn lemma_outcome_exact(s: SessionV, reply_to: u64, e: WordleEventV)
    ensures
        ({
            let s1 = step_reply(s, reply_to, e).0;
            &&& (s1.status == StatusV::GameOver(Outcome::Win) && s.status != StatusV::GameOver(
                Outcome::Win,
            )) ==> winning_reply(s, reply_to, e)
            &&& winning_reply(s, reply_to, e) ==> s1.status == StatusV::GameOver(Outcome::Win)
            &&& (s1.status == StatusV::GameOver(Outcome::Lose) && s.status != StatusV::GameOver(
                Outcome::Lose,
            )) ==> losing_reply(s, reply_to, e)
            &&& losing_reply(s, reply_to, e) ==> s1.status == StatusV::GameOver(Outcome::Lose)
        }),
{
}

/// No user request finishes a game: a session leaves a request with a
/// terminal status only when it already had that very status.
pub proof fn lemma_requests_never_finish(
    s: SessionV,
    source: u64,
    inbound_id: u64,
    sent_id: u64,
    program_id: u64,
    a: ActionV,
)
    ensures
        ({
            let s1 = step_action(s, source, inbound_id, sent_id, program_id, a).0;
            s1.status matches StatusV::GameOver(o) ==> s.status == StatusV::GameOver(o)
        }),
{
}

/// Starting an already-started game is idempotent: no second downstream
/// start request is sent — no effect is asked of the host at all — and
/// the status falls back to `Waiting` with everything else kept.
pub proof fn lemma_start_is_idempotent(s: SessionV, user: u64, inbound_id: u64, sent_id: u64)
    requires
        s.status is GameStarted,
    ensures
        step_start(s, user, inbound_id, sent_id).1 == EffectsV::empty(),
        step_start(s, user, inbound_id, sent_id).1.sent_to_engine is None,
        step_start(s, user, inbound_id, sent_id).0 == (SessionV {
            status: StatusV::Waiting,
            ..s
        }),
{
}

/// At most one downstream request is in flight per session: a guess is
/// forwarded only from `Waiting`, the forwarding itself raises the
/// `MessageSent` guard, and a guess arriving at a raised guard is turned
/// away unchanged with no downstream send. No request of any kind sends
/// downstream while the guard is raised.
pub proof fn lemma_one_in_flight(
    s: SessionV,
    source: u64,
    inbound_id: u64,
    sent_id: u64,
    program_id: u64,
    a: ActionV,
    w: Seq<char>,
)
    ensures
        ({
            let r = step_check_word(s, source, inbound_id, sent_id, w);
            &&& (r.1.sent_to_engine is Some ==> s.status is Waiting && r.0.status is MessageSent)
            &&& (s.status is MessageSent ==> r.0 == s && r.1 == (EffectsV {
                replied: Some(StatusV::MessageSent),
                ..EffectsV::empty()
            }))
        }),
        s.status is MessageSent ==> step_action(
            s,
            source,
            inbound_id,
            sent_id,
            program_id,
            a,
        ).1.sent_to_engine is None,
{
}

/// The validation rule, exactly as the proxy applies it: a guess is answered with
/// `InvalidWord` precisely when no request is in flight and the word
/// fails the length check and the case check at once.
pub proof fn lemma_validation_rule(
    s: SessionV,
    source: u64,
    inbound_id: u64,
    sent_id: u64,
    w: Seq<char>,
)
    ensures
        step_check_word(s, source, inbound_id, sent_id, w).1.replied == Some(StatusV::InvalidWord)
            <==> (!(s.status is MessageSent) && word_rejected(w)),
{
}

} // verus!
