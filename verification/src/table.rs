use crate::field::UserKey;
use crate::service::{StoreQuery, StoreReply};
use crate::user::User;
use vstd::prelude::*;

verus! {

/// Whether `user` is the record that `key` asks for.
pub open spec fn key_matches(key: UserKey, user: User) -> bool {
    match key {
        UserKey::Id(id) => user.id == id,
        UserKey::Email(email) => user.email@ == email@,
        UserKey::Username(username) => user.username@ == username@,
    }
}

/// Whether some record of `rows` answers to `key`.
pub open spec fn holds(rows: Seq<User>, key: UserKey) -> bool {
    exists|i: int| 0 <= i < rows.len() && key_matches(key, #[trigger] rows[i])
}

/// Whether a record with this email or this username is among `rows`.
pub open spec fn taken(rows: Seq<User>, email: Seq<char>, username: Seq<char>) -> bool {
    exists|i: int|
        0 <= i < rows.len() && ((#[trigger] rows[i]).email@ == email || rows[i].username@
            == username)
}

/// The uniqueness that the store enforces: no two records share an id, an
/// email or a username.
pub open spec fn unique(rows: Seq<User>) -> bool {
    forall|i: int, j: int|
        0 <= i < j < rows.len() ==> (#[trigger] rows[i]).id != (#[trigger] rows[j]).id
            && rows[i].email@ != rows[j].email@ && rows[i].username@ != rows[j].username@
}

/// Whether a store that holds `before` may answer `query` with `reply` and
/// hold `after` from then on.
///
/// A lookup changes nothing and finds a record exactly where one answers to
/// the key. An insert of a taken email or username is a constraint violation
/// and changes nothing; any other insert either appends one record, with the
/// given fields, a fresh id and neither bio nor image, or fails and changes
/// nothing.
pub open spec fn answers(before: Seq<User>, query: StoreQuery, reply: StoreReply, after: Seq<User>) -> bool {
    match query {
        StoreQuery::Find(key) => after == before && match reply {
            StoreReply::Found(Some(user)) => before.contains(user) && key_matches(key, user),
            StoreReply::Found(None) => !holds(before, key),
            _ => false,
        },
        StoreQuery::Insert { email, username, password_hash } => if taken(
            before,
            email@,
            username@,
        ) {
            reply is ConstraintViolation && after == before
        } else {
            match reply {
                StoreReply::Inserted(user) => after == before.push(user) && user.email@ == email@
                    && user.username@ == username@ && user.password_hash@ == password_hash@
                    && user.bio is None && user.image is None && !holds(
                    before,
                    UserKey::Id(user.id),
                ),
                StoreReply::Failed(_) => after == before,
                _ => false,
            }
        },
    }
}

/// A store that answers by the rule of [`answers`] keeps its records unique.
pub proof fn answers_keep_unique(before: Seq<User>, query: StoreQuery, reply: StoreReply, after: Seq<User>)
    requires
        unique(before),
        answers(before, query, reply, after),
    ensures
        unique(after),
{
    if let StoreQuery::Insert { email, username, password_hash } = query {
        if let StoreReply::Inserted(user) = reply {
            if !taken(before, email@, username@) {
                assert forall|i: int, j: int| 0 <= i < j < after.len() implies (
                #[trigger] after[i]).id != (#[trigger] after[j]).id && after[i].email@
                    != after[j].email@ && after[i].username@ != after[j].username@ by {
                    if j == before.len() {
                        assert(after[i] == before[i]);
                        assert(!key_matches(UserKey::Id(user.id), before[i]));
                        assert(!(before[i].email@ == email@ || before[i].username@ == username@));
                    } else {
                        assert(after[i] == before[i] && after[j] == before[j]);
                    }
                }
            }
        }
    }
}

/// Whether `later` holds every record of `earlier`, unchanged and in place.
pub open spec fn extends(earlier: Seq<User>, later: Seq<User>) -> bool {
    earlier.len() <= later.len() && forall|i: int|
        0 <= i < earlier.len() ==> #[trigger] later[i] == earlier[i]
}

/// Whether `states`, `queries` and `replies` are a history of a store: query
/// `k` met the store in state `k`, was answered with reply `k` by the rule of
/// [`answers`], and left it in state `k + 1`.
///
/// The store answers one query at a time, so the queries of any number of
/// operations, run one after the other or at the same time, reach it as one
/// such sequence, in some order.
pub open spec fn is_history(
    states: Seq<Seq<User>>,
    queries: Seq<StoreQuery>,
    replies: Seq<StoreReply>,
) -> bool {
    &&& states.len() == queries.len() + 1
    &&& replies.len() == queries.len()
    &&& forall|k: int|
        0 <= k < queries.len() ==> answers(states[k], #[trigger] queries[k], replies[k], states[k + 1])
}

/// Whatever queries reach a store, in whatever order and number: its records
/// stay unique, and none is ever removed or changed.
pub proof fn history_keeps_records(
    states: Seq<Seq<User>>,
    queries: Seq<StoreQuery>,
    replies: Seq<StoreReply>,
    j: int,
    k: int,
)
    requires
        is_history(states, queries, replies),
        unique(states[0]),
        0 <= j <= k < states.len(),
    ensures
        unique(states[j]),
        unique(states[k]),
        extends(states[j], states[k]),
    decreases k,
{
    if k > 0 {
        let _ = queries[k - 1];
        if j < k {
            history_keeps_records(states, queries, replies, j, k - 1);
        } else {
            history_keeps_records(states, queries, replies, k - 1, k - 1);
        }
        answers_keep_unique(states[k - 1], queries[k - 1], replies[k - 1], states[k]);
        assert(extends(states[k - 1], states[k]));
    }
}

/// Every record that the store has reported as inserted is among its records
/// from then on, and no two inserts of one history share an id, an email or a
/// username: of any number of attempts on one username, one at most is
/// answered with a record, and one record at most holds the name afterwards.
pub proof fn history_inserts_once(
    states: Seq<Seq<User>>,
    queries: Seq<StoreQuery>,
    replies: Seq<StoreReply>,
    j: int,
    k: int,
)
    requires
        is_history(states, queries, replies),
        unique(states[0]),
        0 <= j < k < queries.len(),
        replies[j] is Inserted,
    ensures
        states.last().contains(replies[j]->Inserted_0),
        unique(states.last()),
        replies[k] matches StoreReply::Inserted(second) ==> {
            let first = replies[j]->Inserted_0;
            first.id != second.id && first.email@ != second.email@ && first.username@
                != second.username@
        },
        queries[k] matches StoreQuery::Insert { email, username, .. } && (email@
            == replies[j]->Inserted_0.email@ || username@ == replies[j]->Inserted_0.username@)
            ==> replies[k] is ConstraintViolation && states[k + 1] == states[k],
{
    let first = replies[j]->Inserted_0;
    let _ = queries[j];
    let _ = queries[k];
    let at = states[j].len() as int;
    assert(states[j + 1] == states[j].push(first));
    assert(states[j + 1][at] == first);
    history_keeps_records(states, queries, replies, j + 1, k);
    assert(states[k][at] == first);
    let end = states.len() - 1;
    history_keeps_records(states, queries, replies, j + 1, end);
    assert(states[end][at] == first);
    if let StoreQuery::Insert { email, username, password_hash } = queries[k] {
        if email@ == first.email@ || username@ == first.username@ {
            assert(states[k][at].email@ == email@ || states[k][at].username@ == username@);
            assert(taken(states[k], email@, username@));
        }
        if let StoreReply::Inserted(second) = replies[k] {
            assert(!taken(states[k], email@, username@));
            assert(!key_matches(UserKey::Id(second.id), states[k][at]));
        }
    }
}

/// Once a username is registered, every further registration under it is
/// refused, whatever email it comes with: the lookup finds the holder, the
/// insert is a constraint violation, and neither adds a record.
pub proof fn registered_username_is_refused(
    rows: Seq<User>,
    email: String,
    username: String,
    password_hash: String,
    reply: StoreReply,
    after: Seq<User>,
)
    requires
        holds(rows, UserKey::Username(username)),
        answers(rows, StoreQuery::Find(UserKey::Username(username)), reply, after) || answers(
            rows,
            StoreQuery::Insert { email, username, password_hash },
            reply,
            after,
        ),
    ensures
        after == rows,
        reply matches StoreReply::Found(Some(_)) || reply is ConstraintViolation,
{
    let i = choose|i: int| 0 <= i < rows.len() && key_matches(UserKey::Username(username), #[trigger] rows[i]);
    assert(rows[i].email@ == email@ || rows[i].username@ == username@);
    assert(taken(rows, email@, username@));
}

/// The same for a registered email.
pub proof fn registered_email_is_refused(
    rows: Seq<User>,
    email: String,
    username: String,
    password_hash: String,
    reply: StoreReply,
    after: Seq<User>,
)
    requires
        holds(rows, UserKey::Email(email)),
        answers(rows, StoreQuery::Find(UserKey::Email(email)), reply, after) || answers(
            rows,
            StoreQuery::Insert { email, username, password_hash },
            reply,
            after,
        ),
    ensures
        after == rows,
        reply matches StoreReply::Found(Some(_)) || reply is ConstraintViolation,
{
    let i = choose|i: int| 0 <= i < rows.len() && key_matches(UserKey::Email(email), #[trigger] rows[i]);
    assert(rows[i].email@ == email@ || rows[i].username@ == username@);
    assert(taken(rows, email@, username@));
}

fn copy_text(text: &Option<String>) -> (r: Option<String>)
    ensures
        r == *text,
{
    match text {
        Some(t) => Some(t.clone()),
        None => None,
    }
}

fn copy_user(user: &User) -> (r: User)
    ensures
        r == *user,
{
    User {
        id: user.id,
        email: user.email.clone(),
        username: user.username.clone(),
        password_hash: user.password_hash.clone(),
        bio: copy_text(&user.bio),
        image: copy_text(&user.image),
    }
}

/// A user store in memory, with the uniqueness of a relational table: ids
/// are handed out in sequence, and an email or a username is held by one
/// record at most.
#[derive(Debug)]
pub struct UserTable {
    rows: Vec<User>,
    next_id: u128,
}

impl UserTable {
    pub closed spec fn view(&self) -> Seq<User> {
        self.rows@
    }

    pub closed spec fn next_id(&self) -> u128 {
        self.next_id
    }

    /// Records are unique, and every id in use is below the next one.
    pub open spec fn wf(&self) -> bool {
        &&& unique(self@)
        &&& forall|i: int| 0 <= i < self@.len() ==> (#[trigger] self@[i]).id < self.next_id()
    }

    pub fn new() -> (t: UserTable)
        ensures
            t.wf(),
            t@.len() == 0,
            t.next_id() == 1,
    {
        UserTable { rows: Vec::new(), next_id: 1 }
    }

    pub fn len(&self) -> (n: usize)
        ensures
            n == self@.len(),
    {
        self.rows.len()
    }

    fn matches(key: &UserKey, user: &User) -> (b: bool)
        ensures
            b == key_matches(*key, *user),
    {
        match key {
            UserKey::Id(id) => user.id == *id,
            UserKey::Email(email) => user.email.eq(email),
            UserKey::Username(username) => user.username.eq(username),
        }
    }

    /// The record that answers to `key`, if there is one.
    pub fn find_by(&self, key: &UserKey) -> (r: Option<User>)
        ensures
            match r {
                Some(user) => self@.contains(user) && key_matches(*key, user),
                None => !holds(self@, *key),
            },
    {
        let mut i: usize = 0;
        while i < self.rows.len()
            invariant
                i <= self.rows.len(),
                forall|j: int| 0 <= j < i ==> !key_matches(*key, #[trigger] self.rows@[j]),
            decreases self.rows.len() - i,
        {
            if Self::matches(key, &self.rows[i]) {
                return Some(copy_user(&self.rows[i]));
            }
            i = i + 1;
        }
        None
    }

    fn is_taken(&self, email: &String, username: &String) -> (b: bool)
        ensures
            b == taken(self@, email@, username@),
    {
        let mut i: usize = 0;
        while i < self.rows.len()
            invariant
                i <= self.rows.len(),
                forall|j: int|
                    0 <= j < i ==> !((#[trigger] self.rows@[j]).email@ == email@
                        || self.rows@[j].username@ == username@),
            decreases self.rows.len() - i,
        {
            let row = &self.rows[i];
            if row.email.eq(email) || row.username.eq(username) {
                return true;
            }
            i = i + 1;
        }
        false
    }

    /// Answers `query` by the rule of [`answers`], and stays well formed. Of
    /// the two answers that the rule leaves to an insert of free names, the
    /// record is appended, with the next id, as long as there is one.
    pub fn answer(&mut self, query: StoreQuery) -> (reply: StoreReply)
        requires
            old(self).wf(),
        ensures
            final(self).wf(),
            answers(old(self)@, query, reply, final(self)@),
            reply is Inserted <==> (query matches StoreQuery::Insert { email, username, .. }
                && !taken(old(self)@, email@, username@) && old(self).next_id() < u128::MAX),
            reply matches StoreReply::Inserted(user) ==> user.id == old(self).next_id(),
            final(self).next_id() == if reply is Inserted {
                old(self).next_id() + 1
            } else {
                old(self).next_id() as int
            },
    {
        match query {
            StoreQuery::Find(key) => StoreReply::Found(self.find_by(&key)),
            StoreQuery::Insert { email, username, password_hash } => {
                if self.is_taken(&email, &username) {
                    StoreReply::ConstraintViolation
                } else if self.next_id == u128::MAX {
                    StoreReply::Failed("No identifier is left for a new user".to_owned())
                } else {
                    let user = User {
                        id: self.next_id,
                        email,
                        username,
                        password_hash,
                        bio: None,
                        image: None,
                    };
                    let copy = copy_user(&user);
                    self.rows.push(user);
                    self.next_id = self.next_id + 1;
                    proof {
                        let reply = StoreReply::Inserted(copy);
                        assert(!holds(old(self)@, UserKey::Id(copy.id)));
                        answers_keep_unique(old(self)@, query, reply, self@);
                    }
                    StoreReply::Inserted(copy)
                }
            },
        }
    }
}

} // verus!
