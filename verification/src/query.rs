//! The read-only query surface: a projection of the registry for external
//! inspection. It shares the data model and changes nothing.

use vstd::prelude::*;

use crate::io::{copy_session, copy_status, SessionStatus, StateQuery, StateQueryReply};
use crate::registry::State;

verus! {

/// Answers a state query: all user identities, or one user's whole
/// session. Asking for a user who never interacted is left out; the host
/// checks first and fails that one query.
pub fn state(games: State, query: StateQuery) -> (r: StateQueryReply)
    requires
        games.wf(),
        query matches StateQuery::Player(address) ==> games@.dom().contains(address),
    ensures
        match query {
            StateQuery::All => r matches StateQueryReply::All(users) && users@ == games.users(),
            StateQuery::Player(address) => r matches StateQueryReply::Game(s) && s@
                == games@[address],
        },
{
    match query {
        StateQuery::All => StateQueryReply::All(games.user_list()),
        StateQuery::Player(address) => {
            let s = match games.get(address) {
                Some(s) => s,
                None => vstd::pervasive::unreached(),
            };
            StateQueryReply::Game(copy_session(s))
        },
    }
}

/// The identities of every user with a session.
pub fn all_player_address(games: State) -> (r: Vec<u64>)
    ensures
        r@ == games.users(),
{
    games.user_list()
}

/// One user's session status.
pub fn get_session_status(games: State, user_id: u64) -> (r: SessionStatus)
    requires
        games.wf(),
        games@.dom().contains(user_id),
    ensures
        r@ == games@[user_id].status,
{
    let s = match games.get(user_id) {
        Some(s) => s,
        None => vstd::pervasive::unreached(),
    };
    copy_status(&s.session_status)
}

/// One user's count of completed evaluation rounds.
pub fn get_tries_number(games: State, user_id: u64) -> (r: u8)
    requires
        games.wf(),
        games@.dom().contains(user_id),
    ensures
        r as nat == games@[user_id].tries,
{
    let s = match games.get(user_id) {
        Some(s) => s,
        None => vstd::pervasive::unreached(),
    };
    s.tries_number
}

/// The identifier of the message a user's session sent downstream.
pub fn get_sent_message_id(games: State, user_id: u64) -> (r: u64)
    requires
        games.wf(),
        games@.dom().contains(user_id),
    ensures
        r == games@[user_id].msg_ids.0,
{
    let s = match games.get(user_id) {
        Some(s) => s,
        None => vstd::pervasive::unreached(),
    };
    s.msg_ids.0
}

/// The identifier of the inbound message a user's session must release.
pub fn get_original_message_id(games: State, user_id: u64) -> (r: u64)
    requires
        games.wf(),
        games@.dom().contains(user_id),
    ensures
        r == games@[user_id].msg_ids.1,
{
    let s = match games.get(user_id) {
        Some(s) => s,
        None => vstd::pervasive::unreached(),
    };
    s.msg_ids.1
}

} // verus!
