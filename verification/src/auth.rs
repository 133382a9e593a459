//! Accounts and sessions.
//!
//! A caller logs in with a user name and a password and is handed a session,
//! which stands for the user until it is logged out. Sessions are drawn at
//! random.

use std::collections::HashMap;
use vstd::prelude::*;
use vstd::std_specs::hash::*;
use crate::ident::random_uuid;
use crate::text::same_text;

verus! {

broadcast use vstd::std_specs::hash::group_hash_axioms;

/// The status for a caller that is not logged in.
pub const STATUS_UNAUTHORIZED: u16 = 401;

/// An account.
#[derive(Clone, Debug, PartialEq, Eq)]
pub struct User {
    pub username: String,
    pub id: u128,
    pub password: String,
}

/// What a caller presents to log in.
#[derive(Clone, Debug, PartialEq, Eq)]
pub struct Creds {
    pub username: String,
    pub password: String,
}

/// The accounts, each under its user name.
pub struct Users {
    users: Vec<User>,
}

/// The sessions that are open, each with the identity of its user.
pub struct Sessions {
    sessions: HashMap<u128, u128>,
}

/// The position of the first account at or after `from` that goes by `name`.
pub open spec fn position_from(users: Seq<User>, name: Seq<char>, from: int) -> Option<int>
    decreases users.len() - from,
{
    if from < 0 || from >= users.len() {
        None
    } else if users[from].username@ == name {
        Some(from)
    } else {
        position_from(users, name, from + 1)
    }
}

/// The account that goes by `name` among `users`.
pub open spec fn account_in(users: Seq<User>, name: Seq<char>) -> Option<User> {
    match position_from(users, name, 0) {
        Some(at) => Some(users[at]),
        None => None,
    }
}

/// Whether the credentials are those of an account among `users`.
pub open spec fn admits(users: Seq<User>, creds: Creds) -> bool {
    account_in(users, creds.username@) matches Some(user) && user.password@ == creds.password@
}

proof fn lemma_position_in_range(users: Seq<User>, name: Seq<char>, from: int)
    requires
        0 <= from,
    ensures
        position_from(users, name, from) matches Some(at) ==> from <= at < users.len()
            && users[at].username@ == name,
        position_from(users, name, from) is None ==> forall|j: int|
            from <= j < users.len() ==> (#[trigger] users[j]).username@ != name,
    decreases users.len() - from,
{
    if from < users.len() && users[from].username@ != name {
        lemma_position_in_range(users, name, from + 1);
    }
}

proof fn lemma_position_same_names(a: Seq<User>, b: Seq<User>, name: Seq<char>, from: int)
    requires
        0 <= from,
        a.len() == b.len(),
        forall|j: int| 0 <= j < a.len() ==> (#[trigger] a[j]).username@ == b[j].username@,
    ensures
        position_from(a, name, from) == position_from(b, name, from),
    decreases a.len() - from,
{
    if from < a.len() {
        assert(a[from].username@ == b[from].username@);
        if a[from].username@ != name {
            lemma_position_same_names(a, b, name, from + 1);
        }
    }
}

proof fn lemma_position_pushed(users: Seq<User>, user: User, name: Seq<char>, from: int)
    requires
        0 <= from <= users.len(),
    ensures
        position_from(users.push(user), name, from) == match position_from(users, name, from) {
            Some(at) => Some(at),
            None => if user.username@ == name {
                Some(users.len() as int)
            } else {
                None
            },
        },
    decreases users.len() - from,
{
    let more = users.push(user);
    if from < users.len() {
        assert(more[from] == users[from]);
        if users[from].username@ != name {
            lemma_position_pushed(users, user, name, from + 1);
        }
    } else {
        assert(more[from] == user);
        assert(position_from(more, name, from + 1) is None);
    }
}

impl View for Users {
    type V = Seq<User>;

    closed spec fn view(&self) -> Seq<User> {
        self.users@
    }
}

impl View for Sessions {
    type V = Map<u128, u128>;

    closed spec fn view(&self) -> Map<u128, u128> {
        self.sessions@
    }
}

impl Users {
    /// No accounts.
    pub fn new() -> (users: Users)
        ensures
            users@ == Seq::<User>::empty(),
    {
        Users { users: Vec::new() }
    }

    /// The account that goes by `name`.
    pub open spec fn account(&self, name: Seq<char>) -> Option<User> {
        account_in(self@, name)
    }

    /// Looks up the account that goes by `name`.
    pub fn get(&self, name: &str) -> (found: Option<&User>)
        ensures
            match found {
                Some(user) => self.account(name@) == Some(*user),
                None => self.account(name@) is None,
            },
    {
        let mut i: usize = 0;
        while i < self.users.len()
            invariant
                i <= self.users.len(),
                position_from(self.users@, name@, 0) == position_from(self.users@, name@, i as int),
            decreases self.users.len() - i,
        {
            if same_text(self.users[i].username.as_str(), name) {
                return Some(&self.users[i]);
            }
            i = i + 1;
        }
        None
    }

    /// Puts an account under its user name, in place of any that went by
    /// that name. No other account changes.
    pub fn register(&mut self, user: User)
        ensures
            final(self).account(user.username@) == Some(user),
            forall|name: Seq<char>|
                name != user.username@ ==> final(self).account(name) == old(self).account(name),
    {
        let ghost before = self.users@;
        let mut i: usize = 0;
        while i < self.users.len()
            invariant
                i <= self.users.len(),
                self.users@ == before,
                old(self)@ == before,
                position_from(before, user.username@, 0) == position_from(
                    before,
                    user.username@,
                    i as int,
                ),
            decreases self.users.len() - i,
        {
            if same_text(self.users[i].username.as_str(), user.username.as_str()) {
                let ghost added = user;
                let ghost after = before.update(i as int, added);
                self.users.set(i, user);
                proof {
                    assert(self.users@ == after);
                    assert forall|name: Seq<char>| name != added.username@ implies account_in(
                        after,
                        name,
                    ) == account_in(before, name) by {
                        lemma_position_same_names(after, before, name, 0);
                        lemma_position_in_range(before, name, 0);
                    }
                    lemma_position_same_names(after, before, added.username@, 0);
                    lemma_position_in_range(before, added.username@, 0);
                }
                return ;
            }
            i = i + 1;
        }
        proof {
            assert forall|name: Seq<char>|
                name != user.username@ implies account_in(before.push(user), name) == account_in(
                before,
                name,
            ) by {
                lemma_position_pushed(before, user, name, 0);
                lemma_position_in_range(before, name, 0);
            }
            lemma_position_pushed(before, user, user.username@, 0);
        }
        self.users.push(user);
    }
}

impl Sessions {
    /// No open sessions.
    pub fn new() -> (sessions: Sessions)
        ensures
            sessions@ == Map::<u128, u128>::empty(),
    {
        Sessions { sessions: HashMap::new() }
    }
}

/// Opens a session for the account that the credentials name, if its
/// password is the one presented. Nothing changes otherwise.
pub fn login(creds: &Creds, users: &Users, sessions: &mut Sessions) -> (session: Option<u128>)
    ensures
        match session {
            Some(opened) => admits(users@, *creds) && final(sessions)@ == old(sessions)@.insert(
                opened,
                account_in(users@, creds.username@)->0.id,
            ),
            None => !admits(users@, *creds) && final(sessions)@ == old(sessions)@,
        },
{
    match users.get(creds.username.as_str()) {
        None => None,
        Some(user) => {
            if same_text(user.password.as_str(), creds.password.as_str()) {
                let session = random_uuid();
                sessions.sessions.insert(session, user.id);
                Some(session)
            } else {
                None
            }
        },
    }
}

/// Closes a session and tells whose it was. Nothing changes for a session
/// that is not open.
pub fn logout(session: u128, sessions: &mut Sessions) -> (user: Option<u128>)
    ensures
        final(sessions)@ == old(sessions)@.remove(session),
        match user {
            Some(id) => old(sessions)@.contains_key(session) && old(sessions)@[session] == id,
            None => !old(sessions)@.contains_key(session),
        },
{
    sessions.sessions.remove(&session)
}

/// The user of an open session.
pub fn is_logged_in(session: u128, sessions: &Sessions) -> (user: Option<u128>)
    ensures
        match user {
            Some(id) => sessions@.contains_key(session) && sessions@[session] == id,
            None => !sessions@.contains_key(session),
        },
{
    match sessions.sessions.get(&session) {
        Some(id) => Some(*id),
        None => None,
    }
}

} // verus!
