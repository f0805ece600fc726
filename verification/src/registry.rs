//! The session registry: the one owned mapping from user identity to
//! session record. Entries are only ever added, never removed; a finished
//! session stays queryable and is reused when its user starts afresh.
//!
//! The registry is a vector of key–value pairs with pairwise-distinct
//! keys, viewed as a `Map` from user to session view; the order of first
//! contact is kept and is what the user listing reports.

use vstd::prelude::*;

use crate::io::{Session, SessionV};

verus! {

/// The registry of all sessions, keyed by user identity.
pub struct State {
    sessions: Vec<(u64, Session)>,
}

/// The keys of a pair sequence, in order.
pub open spec fn keys_of(s: Seq<(u64, Session)>) -> Seq<u64> {
    s.map_values(|p: (u64, Session)| p.0)
}

/// The mapping that a pair sequence denotes; a later pair with the same
/// key would win, though the registry never holds one.
pub open spec fn map_of(s: Seq<(u64, Session)>) -> Map<u64, SessionV>
    decreases s.len(),
{
    if s.len() == 0 {
        Map::empty()
    } else {
        map_of(s.drop_last()).insert(s.last().0, s.last().1@)
    }
}

/// The domain of the denoted mapping is exactly the set of keys.
proof fn lemma_map_of_dom(s: Seq<(u64, Session)>)
    ensures
        map_of(s).dom() == keys_of(s).to_set(),
    decreases s.len(),
{
    if s.len() == 0 {
        assert(map_of(s).dom() =~= keys_of(s).to_set());
    } else {
        let s1 = s.drop_last();
        lemma_map_of_dom(s1);
        assert(keys_of(s1) =~= keys_of(s).drop_last());
        assert forall|x: u64| keys_of(s).to_set().contains(x)
            <==> (keys_of(s1).to_set().contains(x) || x == s.last().0) by {
            if keys_of(s).contains(x) {
                let i = choose|i: int| 0 <= i < keys_of(s).len() && keys_of(s)[i] == x;
                if i < s.len() - 1 {
                    assert(keys_of(s1)[i] == x);
                }
            }
            if keys_of(s1).contains(x) {
                let i = choose|i: int| 0 <= i < keys_of(s1).len() && keys_of(s1)[i] == x;
                assert(keys_of(s)[i] == x);
            }
            assert(keys_of(s)[s.len() - 1] == s.last().0);
        }
        assert(map_of(s).dom() =~= keys_of(s).to_set());
    }
}

/// With distinct keys, every pair of the sequence is in the mapping.
proof fn lemma_map_of_index(s: Seq<(u64, Session)>, i: int)
    requires
        keys_of(s).no_duplicates(),
        0 <= i < s.len(),
    ensures
        map_of(s).dom().contains(s[i].0),
        map_of(s)[s[i].0] == s[i].1@,
    decreases s.len(),
{
    let s1 = s.drop_last();
    assert(keys_of(s1) =~= keys_of(s).drop_last());
    if i == s.len() - 1 {
        assert(s.last() == s[i]);
    } else {
        assert(keys_of(s)[i] != keys_of(s)[s.len() - 1]);
        assert(s[i].0 != s.last().0);
        lemma_map_of_index(s1, i);
        assert(s1[i] == s[i]);
    }
}

/// A key that occurs nowhere in the sequence is not in the mapping.
proof fn lemma_map_of_absent(s: Seq<(u64, Session)>, user: u64)
    requires
        !keys_of(s).contains(user),
    ensures
        !map_of(s).dom().contains(user),
{
    lemma_map_of_dom(s);
}

/// Replacing the pair at a position replaces that key's entry and nothing
/// else.
proof fn lemma_map_of_update(s: Seq<(u64, Session)>, i: int, p: (u64, Session))
    requires
        keys_of(s).no_duplicates(),
        0 <= i < s.len(),
        p.0 == s[i].0,
    ensures
        map_of(s.update(i, p)) == map_of(s).insert(p.0, p.1@),
        keys_of(s.update(i, p)) == keys_of(s),
    decreases s.len(),
{
    let su = s.update(i, p);
    assert(keys_of(su) =~= keys_of(s));
    if i == s.len() - 1 {
        assert(su.drop_last() =~= s.drop_last());
        assert(su.last() == p);
        assert(map_of(su) =~= map_of(s).insert(p.0, p.1@));
    } else {
        let s1 = s.drop_last();
        assert(keys_of(s1) =~= keys_of(s).drop_last());
        assert(su.drop_last() =~= s1.update(i, p));
        assert(su.last() == s.last());
        lemma_map_of_update(s1, i, p);
        assert(keys_of(s)[i] != keys_of(s)[s.len() - 1]);
        assert(p.0 != s.last().0);
        assert(map_of(su) =~= map_of(s).insert(p.0, p.1@));
    }
}

/// Appending a pair adds that key's entry and nothing else.
proof fn lemma_map_of_push(s: Seq<(u64, Session)>, p: (u64, Session))
    ensures
        map_of(s.push(p)) == map_of(s).insert(p.0, p.1@),
        keys_of(s.push(p)) == keys_of(s).push(p.0),
{
    assert(s.push(p).drop_last() =~= s);
    assert(s.push(p).last() == p);
    assert(keys_of(s.push(p)) =~= keys_of(s).push(p.0));
}

impl View for State {
    type V = Map<u64, SessionV>;

    closed spec fn view(&self) -> Map<u64, SessionV> {
        map_of(self.sessions@)
    }
}

impl State {
    /// The identities of all users with a session, in order of first
    /// contact.
    pub closed spec fn users(self) -> Seq<u64> {
        keys_of(self.sessions@)
    }

    /// The registry's invariant: one session per user, and every stored
    /// status is a resting one.
    pub closed spec fn wf(self) -> bool {
        &&& keys_of(self.sessions@).no_duplicates()
        &&& forall|i: int|
            0 <= i < self.sessions@.len() ==> (#[trigger] self.sessions@[i].1@).status.is_resting()
    }

    /// The empty registry, as the process starts with it.
    pub fn new() -> (r: State)
        ensures
            r.wf(),
            r@ == Map::<u64, SessionV>::empty(),
            r.users() == Seq::<u64>::empty(),
    {
        let r = State { sessions: Vec::new() };
        proof {
            assert(r@ =~= Map::<u64, SessionV>::empty());
            assert(r.users() =~= Seq::<u64>::empty());
        }
        r
    }

    /// Looks a user's session up; `None` exactly when the user has never
    /// interacted.
    pub fn get(&self, user: u64) -> (r: Option<&Session>)
        requires
            self.wf(),
        ensures
            match r {
                Some(s) => self@.dom().contains(user) && s@ == self@[user]
                    && s@.status.is_resting(),
                None => !self@.dom().contains(user),
            },
    {
        let n = self.sessions.len();
        let mut i: usize = 0;
        while i < n
            invariant
                self.wf(),
                n == self.sessions@.len(),
                i <= n,
                forall|j: int| 0 <= j < i ==> (#[trigger] self.sessions@[j]).0 != user,
            decreases n - i,
        {
            if self.sessions[i].0 == user {
                proof {
                    lemma_map_of_index(self.sessions@, i as int);
                }
                return Some(&self.sessions[i].1);
            }
            i += 1;
        }
        proof {
            assert forall|j: int| 0 <= j < keys_of(self.sessions@).len()
                implies keys_of(self.sessions@)[j] != user by {
                assert(self.sessions@[j].0 != user);
            }
            lemma_map_of_absent(self.sessions@, user);
        }
        None
    }

    /// True exactly when the user has a session.
    pub fn contains(&self, user: u64) -> (r: bool)
        requires
            self.wf(),
        ensures
            r == self@.dom().contains(user),
    {
        self.get(user).is_some()
    }

    /// Writes a user's session, creating the entry on first contact and
    /// replacing it otherwise; the listing order gains the user only on
    /// first contact.
    #[verifier::loop_isolation(false)]
    pub fn insert(&mut self, user: u64, session: Session)
        requires
            old(self).wf(),
            session@.status.is_resting(),
        ensures
            final(self).wf(),
            final(self)@ == old(self)@.insert(user, session@),
            final(self).users() == if old(self)@.dom().contains(user) {
                old(self).users()
            } else {
                old(self).users().push(user)
            },
    {
        let ghost s0 = self.sessions@;
        let n = self.sessions.len();
        let mut i: usize = 0;
        while i < n
            invariant
                self.wf(),
                self.sessions@ == s0,
                n == s0.len(),
                i <= n,
                forall|j: int| 0 <= j < i ==> (#[trigger] s0[j]).0 != user,
            decreases n - i,
        {
            if self.sessions[i].0 == user {
                proof {
                    lemma_map_of_index(s0, i as int);
                    lemma_map_of_dom(s0);
                    lemma_map_of_update(s0, i as int, (user, session));
                }
                self.sessions.set(i, (user, session));
                proof {
                    assert(self.sessions@ == s0.update(i as int, (user, session)));
                    assert(self@ == map_of(s0).insert(user, session@));
                    assert forall|j: int|
                        0 <= j < self.sessions@.len()
                        implies (#[trigger] self.sessions@[j].1@).status.is_resting() by {
                        if j != i {
                            assert(self.sessions@[j] == s0[j]);
                            assert(s0[j].1@.status.is_resting());
                        } else {
                            assert(self.sessions@[j].1 == session);
                        }
                    }
                }
                return ;
            }
            i += 1;
        }
        proof {
            assert forall|j: int| 0 <= j < keys_of(s0).len()
                implies keys_of(s0)[j] != user by {
                assert(s0[j].0 != user);
            }
            lemma_map_of_absent(s0, user);
            lemma_map_of_push(s0, (user, session));
        }
        self.sessions.push((user, session));
        proof {
            assert forall|j: int|
                0 <= j < self.sessions@.len()
                implies (#[trigger] self.sessions@[j].1@).status.is_resting() by {
                if j < s0.len() {
                    assert(self.sessions@[j] == s0[j]);
                }
            }
        }
    }

    /// Hands the user identities out as a vector, in order of first
    /// contact.
    pub fn user_list(&self) -> (r: Vec<u64>)
        ensures
            r@ == self.users(),
    {
        let n = self.sessions.len();
        let mut out: Vec<u64> = Vec::new();
        let mut i: usize = 0;
        while i < n
            invariant
                n == self.sessions@.len(),
                i <= n,
                out@ == keys_of(self.sessions@).take(i as int),
            decreases n - i,
        {
            out.push(self.sessions[i].0);
            proof {
                assert(out@ =~= keys_of(self.sessions@).take(i + 1));
            }
            i += 1;
        }
        proof {
            assert(out@ =~= keys_of(self.sessions@));
        }
        out
    }
}

/// Listing exactness: the user listing never repeats an identity and
/// covers exactly the registry's domain, so after any number of distinct
/// users have interacted, in any order, it holds exactly one identity per
/// user.
pub proof fn lemma_users_exact(games: State)
    requires
        games.wf(),
    ensures
        games.users().no_duplicates(),
        games.users().to_set() == games@.dom(),
        games.users().len() == games@.dom().len(),
{
    lemma_map_of_dom(games.sessions@);
    games.users().unique_seq_to_set();
}

/// True exactly when the user has a session in the given registry: the
/// game exists for that user.
pub fn is_exist_game(games: &State, user_id: u64) -> (r: bool)
    requires
        games.wf(),
    ensures
        r == games@.dom().contains(user_id),
{
    games.contains(user_id)
}

} // verus!
