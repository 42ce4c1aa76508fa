use crate::error::AppError;
use crate::field::UserKey;
use crate::service::{
    email_taken_message, username_taken_message, Step, StoreReply, UserService, Verdict,
};
use crate::table::{holds, key_matches, taken, UserTable};
use crate::user::{RegisterCommand, User};
use vstd::prelude::*;

verus! {

impl UserService {
    /// What a registration against a table comes to.
    ///
    /// The password is hashed first, so a failure to hash comes before all
    /// else. Then a taken username is a conflict, then a taken email, and the
    /// table stays as it was. With both free the user is appended, with the
    /// fields of the request and a hash that the password verifies against,
    /// and handed out with a token; or the table is out of ids, which is a
    /// store error; or the token cannot be issued, after the insert.
    pub open spec fn registered(
        &self,
        before: Seq<User>,
        request: RegisterCommand,
        result: Result<(User, String), AppError>,
        after: Seq<User>,
    ) -> bool {
        ||| (after == before && (result matches Err(AppError::Other(m)) && m@
            == "Failed to hash password"@))
        ||| if holds(before, UserKey::Username(request.username)) {
            after == before && (result matches Err(AppError::Conflict(m)) && m@
                == username_taken_message(request.username@))
        } else if holds(before, UserKey::Email(request.email)) {
            after == before && (result matches Err(AppError::Conflict(m)) && m@
                == email_taken_message(request.email@))
        } else {
            ||| (after == before && result matches Err(AppError::Db(_)))
            ||| exists|user: User|
                {
                    &&& after == #[trigger] before.push(user)
                    &&& user.email@ == request.email@
                    &&& user.username@ == request.username@
                    &&& user.bio is None
                    &&& user.image is None
                    &&& !holds(before, UserKey::Id(user.id))
                    &&& self.hasher().verdict(request.password@, user.password_hash@) == Some(
                        true,
                    )
                    &&& self.follows(Verdict::Grant(user), Step::Done(result))
                }
        }
    }

    /// What a login against a table comes to: unauthorized where nobody has
    /// the email and where the password is not the holder's, the holder with
    /// a token where it is.
    pub open spec fn logged_in(
        &self,
        rows: Seq<User>,
        email: String,
        password: String,
        result: Result<(User, String), AppError>,
    ) -> bool {
        if holds(rows, UserKey::Email(email)) {
            exists|user: User|
                {
                    &&& #[trigger] rows.contains(user)
                    &&& user.email@ == email@
                    &&& self.follows(
                        self.settle(Verdict::CheckPassword(user, password)),
                        Step::Done(result),
                    )
                }
        } else {
            result == Err::<(User, String), AppError>(AppError::Unauthorized)
        }
    }

    /// What an identity refresh against a table comes to: the user with this
    /// id and a fresh token, and unauthorized where there is none.
    pub open spec fn fetched(
        &self,
        rows: Seq<User>,
        user_id: u128,
        result: Result<(User, String), AppError>,
    ) -> bool {
        if holds(rows, UserKey::Id(user_id)) {
            exists|user: User|
                {
                    &&& #[trigger] rows.contains(user)
                    &&& user.id == user_id
                    &&& self.follows(Verdict::Grant(user), Step::Done(result))
                }
        } else {
            result == Err::<(User, String), AppError>(AppError::Unauthorized)
        }
    }

    /// Registers `request` in `table`.
    pub fn register_in(&self, table: &mut UserTable, request: RegisterCommand) -> (result: Result<
        (User, String),
        AppError,
    >)
        requires
            old(table).wf(),
        ensures
            final(table).wf(),
            self.registered(old(table)@, request, result, final(table)@),
            result matches Err(AppError::Db(_)) ==> old(table).next_id() == u128::MAX,
    {
        let ghost before = table@;
        let ghost email = request.email;
        let ghost username = request.username;
        proof {
            taken_is_either(before, email, username);
        }
        let (flow, query) = match self.register_user(request) {
            Step::Done(result) => { return result; },
            Step::Ask(flow, query) => (flow, query),
        };
        let reply = table.answer(query);
        proof {
            if reply is Found && reply->Found_0 is Some {
                found_is_held(before, UserKey::Username(username), reply->Found_0->Some_0);
            }
        }
        let (flow, query) = match self.resume(flow, reply) {
            Step::Done(result) => { return result; },
            Step::Ask(flow, query) => (flow, query),
        };
        let reply = table.answer(query);
        proof {
            if reply is Found && reply->Found_0 is Some {
                found_is_held(before, UserKey::Email(email), reply->Found_0->Some_0);
            }
        }
        let (flow, query) = match self.resume(flow, reply) {
            Step::Done(result) => { return result; },
            Step::Ask(flow, query) => (flow, query),
        };
        let reply = table.answer(query);
        proof {
            if reply is Inserted {
                assert(table@ == before.push(reply->Inserted_0));
            }
        }
        match self.resume(flow, reply) {
            Step::Done(result) => result,
            Step::Ask(_, _) => vstd::pervasive::unreached(),
        }
    }

    /// Logs in against `table`, which stays as it is.
    pub fn login_in(&self, table: &mut UserTable, email: String, password: String) -> (result:
        Result<(User, String), AppError>)
        requires
            old(table).wf(),
        ensures
            final(table).wf(),
            final(table)@ == old(table)@,
            self.logged_in(old(table)@, email, password, result),
    {
        match self.login_user(email, password) {
            Step::Done(result) => result,
            Step::Ask(flow, query) => {
                let reply = table.answer(query);
                proof {
                    if reply is Found && reply->Found_0 is Some {
                        found_is_held(table@, UserKey::Email(email), reply->Found_0->Some_0);
                    }
                }
                match self.resume(flow, reply) {
                    Step::Done(result) => result,
                    Step::Ask(_, _) => vstd::pervasive::unreached(),
                }
            },
        }
    }

    /// Fetches the user with `user_id` from `table`, which stays as it is,
    /// and issues a fresh token.
    pub fn fetch_in(&self, table: &mut UserTable, user_id: u128) -> (result: Result<
        (User, String),
        AppError,
    >)
        requires
            old(table).wf(),
        ensures
            final(table).wf(),
            final(table)@ == old(table)@,
            self.fetched(old(table)@, user_id, result),
    {
        match self.get_user_by_id(user_id) {
            Step::Done(result) => result,
            Step::Ask(flow, query) => {
                let reply = table.answer(query);
                proof {
                    if reply is Found && reply->Found_0 is Some {
                        found_is_held(table@, UserKey::Id(user_id), reply->Found_0->Some_0);
                    }
                }
                match self.resume(flow, reply) {
                    Step::Done(result) => result,
                    Step::Ask(_, _) => vstd::pervasive::unreached(),
                }
            },
        }
    }
}

/// A username and an email register once. After a registration that
/// succeeded, a registration under the same username or with the same email
/// is refused as a conflict (unless hashing its password failed before
/// anything was looked up) and leaves the table as it was: no second record
/// comes to stand beside the first.
pub proof fn names_register_once(
    service: UserService,
    before: Seq<User>,
    first: RegisterCommand,
    granted: Result<(User, String), AppError>,
    between: Seq<User>,
    second: RegisterCommand,
    refused: Result<(User, String), AppError>,
    after: Seq<User>,
)
    requires
        service.registered(before, first, granted, between),
        granted is Ok,
        second.username@ == first.username@ || second.email@ == first.email@,
        service.registered(between, second, refused, after),
    ensures
        after == between,
        between.len() == before.len() + 1,
        refused matches Err(e) && (e is Conflict || (e matches AppError::Other(m) && m@
            == "Failed to hash password"@)),
        second.username@ == first.username@ ==> !(refused matches Err(AppError::Conflict(m)) && m@
            != username_taken_message(second.username@)),
{
    assert(!holds(before, UserKey::Username(first.username)));
    assert(!holds(before, UserKey::Email(first.email)));
    let user = choose|user: User|
        {
            &&& between == #[trigger] before.push(user)
            &&& user.email@ == first.email@
            &&& user.username@ == first.username@
        };
    let last = before.len() as int;
    assert(between[last] == user);
    if second.username@ == first.username@ {
        assert(key_matches(UserKey::Username(second.username), between[last]));
        assert(holds(between, UserKey::Username(second.username)));
    } else {
        assert(key_matches(UserKey::Email(second.email), between[last]));
        assert(holds(between, UserKey::Email(second.email)));
    }
}

/// A record that answers to a key is held under it.
pub proof fn found_is_held(rows: Seq<User>, key: UserKey, user: User)
    requires
        rows.contains(user),
        key_matches(key, user),
    ensures
        holds(rows, key),
{
    let i = choose|i: int| 0 <= i < rows.len() && rows[i] == user;
    assert(key_matches(key, rows[i]));
}

/// An email or a username is taken exactly where a record is held under one
/// of them.
pub proof fn taken_is_either(rows: Seq<User>, email: String, username: String)
    ensures
        taken(rows, email@, username@) <==> holds(rows, UserKey::Email(email)) || holds(
            rows,
            UserKey::Username(username),
        ),
{
    if taken(rows, email@, username@) {
        let i = choose|i: int|
            0 <= i < rows.len() && ((#[trigger] rows[i]).email@ == email@ || rows[i].username@
                == username@);
        if rows[i].email@ == email@ {
            assert(key_matches(UserKey::Email(email), rows[i]));
        } else {
            assert(key_matches(UserKey::Username(username), rows[i]));
        }
    }
    if holds(rows, UserKey::Email(email)) {
        let i = choose|i: int|
            0 <= i < rows.len() && key_matches(UserKey::Email(email), #[trigger] rows[i]);
        assert(rows[i].email@ == email@ || rows[i].username@ == username@);
    }
    if holds(rows, UserKey::Username(username)) {
        let i = choose|i: int|
            0 <= i < rows.len() && key_matches(UserKey::Username(username), #[trigger] rows[i]);
        assert(rows[i].email@ == email@ || rows[i].username@ == username@);
    }
}

} // verus!
