use crate::error::AppError;
use crate::field::UserKey;
use crate::hasher::Hasher;
use crate::jwt::JwtGenerator;
use crate::user::{RegisterCommand, User};
use vstd::prelude::*;

verus! {

/// What the service asks of the user store.
#[derive(Debug, Clone)]
pub enum StoreQuery {
    Find(UserKey),
    Insert { email: String, username: String, password_hash: String },
}

/// What the user store answers.
#[derive(Debug, Clone)]
pub enum StoreReply {
    /// The answer to a lookup: the matching record, if there is one.
    Found(Option<User>),
    /// The record that an insert has persisted.
    Inserted(User),
    /// The insert met a uniqueness constraint.
    ConstraintViolation,
    /// Any other persistence failure, with its detail for the log.
    Failed(String),
}

impl StoreReply {
    /// The reply that stands for a failure of the store: a breach of a
    /// uniqueness constraint is told apart from every other failure.
    pub fn failure(unique_violation: bool, detail: String) -> (reply: StoreReply)
        ensures
            reply == if unique_violation {
                StoreReply::ConstraintViolation
            } else {
                StoreReply::Failed(detail)
            },
    {
        if unique_violation {
            StoreReply::ConstraintViolation
        } else {
            StoreReply::Failed(detail)
        }
    }
}

/// Where an operation stands while it waits for the store.
#[derive(Clone)]
pub enum Flow {
    CheckingUsername { email: String, username: String, password_hash: String },
    CheckingEmail { email: String, username: String, password_hash: String },
    Inserting { email: String, username: String },
    LoggingIn { password: String },
    Fetching,
}

/// Why an operation ends without a user.
#[derive(Debug, Clone)]
pub enum Rejection {
    UsernameTaken(String),
    EmailTaken(String),
    /// The store refused the insert although both lookups had found nothing.
    LostRace { email: String, username: String },
    Unauthorized,
    CorruptCredential,
    Store(String),
    UnexpectedReply,
}

/// What follows from a reply of the store.
#[derive(Clone)]
pub enum Verdict {
    Ask(Flow, StoreQuery),
    CheckPassword(User, String),
    Grant(User),
    Reject(Rejection),
}

/// What the caller of the service does next: put a query to the store and
/// come back with its reply, or hand out the result.
pub enum Step {
    Ask(Flow, StoreQuery),
    Done(Result<(User, String), AppError>),
}

pub open spec fn username_taken_message(username: Seq<char>) -> Seq<char> {
    "Username '"@ + username + "' is already taken"@
}

pub open spec fn email_taken_message(email: Seq<char>) -> Seq<char> {
    "Email '"@ + email + "' is already registered"@
}

pub open spec fn lost_race_message(email: Seq<char>, username: Seq<char>) -> Seq<char> {
    "Username '"@ + username + "' or email '"@ + email + "' is already registered"@
}

impl Rejection {
    /// Whether `e` is the error that reports this rejection.
    pub open spec fn reported_by(self, e: AppError) -> bool {
        match self {
            Rejection::UsernameTaken(name) => e matches AppError::Conflict(m) && m@
                == username_taken_message(name@),
            Rejection::EmailTaken(email) => e matches AppError::Conflict(m) && m@
                == email_taken_message(email@),
            Rejection::LostRace { email, username } => e matches AppError::Conflict(m) && m@
                == lost_race_message(email@, username@),
            Rejection::Unauthorized => e == AppError::Unauthorized,
            Rejection::CorruptCredential => e matches AppError::Other(m) && m@
                == "Stored password hash is corrupt"@,
            Rejection::Store(detail) => e == AppError::Db(detail),
            Rejection::UnexpectedReply => e matches AppError::Other(m) && m@
                == "Unexpected reply from the user store"@,
        }
    }

    /// The error that reports this rejection.
    pub fn into_error(self) -> (e: AppError)
        ensures
            self.reported_by(e),
    {
        match self {
            Rejection::UsernameTaken(name) => AppError::Conflict(
                "Username '".to_owned().concat(name.as_str()).concat("' is already taken"),
            ),
            Rejection::EmailTaken(email) => AppError::Conflict(
                "Email '".to_owned().concat(email.as_str()).concat("' is already registered"),
            ),
            Rejection::LostRace { email, username } => AppError::Conflict(
                "Username '".to_owned().concat(username.as_str()).concat("' or email '").concat(
                    email.as_str(),
                ).concat("' is already registered"),
            ),
            Rejection::Unauthorized => AppError::Unauthorized,
            Rejection::CorruptCredential => AppError::Other(
                "Stored password hash is corrupt".to_owned(),
            ),
            Rejection::Store(detail) => AppError::Db(detail),
            Rejection::UnexpectedReply => AppError::Other(
                "Unexpected reply from the user store".to_owned(),
            ),
        }
    }
}

/// The rule of the service: what follows when the store answers `reply` to
/// the query that `flow` waits on.
///
/// A registration looks the username up first and the email second, so that
/// with both taken the username is the one reported; only with both free does
/// it insert. A constraint violation at the insert is a conflict like the
/// others. A login or a fetch that finds nobody is unauthorized.
pub open spec fn decide_spec(flow: Flow, reply: StoreReply) -> Verdict {
    match (flow, reply) {
        (_, StoreReply::Failed(detail)) => Verdict::Reject(Rejection::Store(detail)),
        (Flow::CheckingUsername { email, username, password_hash }, StoreReply::Found(Some(_))) =>
            Verdict::Reject(Rejection::UsernameTaken(username)),
        (Flow::CheckingUsername { email, username, password_hash }, StoreReply::Found(None)) =>
            Verdict::Ask(
            Flow::CheckingEmail { email, username, password_hash },
            StoreQuery::Find(UserKey::Email(email)),
        ),
        (Flow::CheckingEmail { email, username, password_hash }, StoreReply::Found(Some(_))) =>
            Verdict::Reject(Rejection::EmailTaken(email)),
        (Flow::CheckingEmail { email, username, password_hash }, StoreReply::Found(None)) =>
            Verdict::Ask(
            Flow::Inserting { email, username },
            StoreQuery::Insert { email, username, password_hash },
        ),
        (Flow::Inserting { email, username }, StoreReply::Inserted(user)) => Verdict::Grant(user),
        (Flow::Inserting { email, username }, StoreReply::ConstraintViolation) => Verdict::Reject(
            Rejection::LostRace { email, username },
        ),
        (Flow::LoggingIn { password }, StoreReply::Found(Some(user))) => Verdict::CheckPassword(
            user,
            password,
        ),
        (Flow::LoggingIn { password }, StoreReply::Found(None)) => Verdict::Reject(
            Rejection::Unauthorized,
        ),
        (Flow::Fetching, StoreReply::Found(Some(user))) => Verdict::Grant(user),
        (Flow::Fetching, StoreReply::Found(None)) => Verdict::Reject(Rejection::Unauthorized),
        _ => Verdict::Reject(Rejection::UnexpectedReply),
    }
}

/// Decides what follows from `reply`, by the rule of [`decide_spec`].
pub fn decide(flow: Flow, reply: StoreReply) -> (v: Verdict)
    ensures
        v == decide_spec(flow, reply),
{
    match reply {
        StoreReply::Failed(detail) => Verdict::Reject(Rejection::Store(detail)),
        StoreReply::Found(found) => match flow {
            Flow::CheckingUsername { email, username, password_hash } => match found {
                Some(_) => Verdict::Reject(Rejection::UsernameTaken(username)),
                None => {
                    let key = UserKey::Email(email.clone());
                    Verdict::Ask(
                        Flow::CheckingEmail { email, username, password_hash },
                        StoreQuery::Find(key),
                    )
                },
            },
            Flow::CheckingEmail { email, username, password_hash } => match found {
                Some(_) => Verdict::Reject(Rejection::EmailTaken(email)),
                None => {
                    let query = StoreQuery::Insert {
                        email: email.clone(),
                        username: username.clone(),
                        password_hash,
                    };
                    Verdict::Ask(Flow::Inserting { email, username }, query)
                },
            },
            Flow::LoggingIn { password } => match found {
                Some(user) => Verdict::CheckPassword(user, password),
                None => Verdict::Reject(Rejection::Unauthorized),
            },
            Flow::Fetching => match found {
                Some(user) => Verdict::Grant(user),
                None => Verdict::Reject(Rejection::Unauthorized),
            },
            Flow::Inserting { .. } => Verdict::Reject(Rejection::UnexpectedReply),
        },
        StoreReply::Inserted(user) => match flow {
            Flow::Inserting { .. } => Verdict::Grant(user),
            _ => Verdict::Reject(Rejection::UnexpectedReply),
        },
        StoreReply::ConstraintViolation => match flow {
            Flow::Inserting { email, username } => Verdict::Reject(
                Rejection::LostRace { email, username },
            ),
            _ => Verdict::Reject(Rejection::UnexpectedReply),
        },
    }
}

/// How a registration starts, given what hashing the password gave: with the
/// lookup of the username, or with the hashing's error.
pub open spec fn begin_registration_spec(
    request: RegisterCommand,
    hashed: Result<String, AppError>,
) -> Step {
    match hashed {
        Ok(password_hash) => Step::Ask(
            Flow::CheckingUsername {
                email: request.email,
                username: request.username,
                password_hash,
            },
            StoreQuery::Find(UserKey::Username(request.username)),
        ),
        Err(e) => Step::Done(Err(e)),
    }
}

pub fn begin_registration(request: RegisterCommand, hashed: Result<String, AppError>) -> (step:
    Step)
    ensures
        step == begin_registration_spec(request, hashed),
{
    match hashed {
        Ok(password_hash) => {
            let key = UserKey::Username(request.username.clone());
            Step::Ask(
                Flow::CheckingUsername {
                    email: request.email,
                    username: request.username,
                    password_hash,
                },
                StoreQuery::Find(key),
            )
        },
        Err(e) => Step::Done(Err(e)),
    }
}

/// Registration, login and identity refresh. The service decides; its caller
/// carries each [`StoreQuery`] to the store and brings the reply back to
/// [`UserService::resume`].
#[derive(Clone)]
pub struct UserService {
    hasher: Hasher,
    jwt: JwtGenerator,
}

impl UserService {
    pub closed spec fn hasher(&self) -> Hasher {
        self.hasher
    }

    pub closed spec fn jwt(&self) -> JwtGenerator {
        self.jwt
    }

    /// The verdict with the password check done: never `CheckPassword`.
    pub open spec fn settle(&self, verdict: Verdict) -> Verdict {
        match verdict {
            Verdict::CheckPassword(user, password) => match self.hasher().verdict(
                password@,
                user.password_hash@,
            ) {
                Some(true) => Verdict::Grant(user),
                Some(false) => Verdict::Reject(Rejection::Unauthorized),
                None => Verdict::Reject(Rejection::CorruptCredential),
            },
            other => other,
        }
    }

    /// What `reply` leads to in `flow`.
    pub open spec fn outcome(&self, flow: Flow, reply: StoreReply) -> Verdict {
        self.settle(decide_spec(flow, reply))
    }

    /// Whether `result` grants `user` a token issued when the clock showed
    /// `now`, or is the error of issuing one then.
    pub open spec fn granted_at(
        &self,
        user: User,
        now: i64,
        result: Result<(User, String), AppError>,
    ) -> bool {
        match result {
            Ok((granted, token)) => granted == user && self.jwt().generated(
                user.id,
                now,
                Ok(token),
            ),
            Err(e) => self.jwt().generated(user.id, now, Err(e)),
        }
    }

    /// Whether `step` is what the service returns on `verdict`.
    pub open spec fn follows(&self, verdict: Verdict, step: Step) -> bool {
        match verdict {
            Verdict::Ask(flow, query) => step == Step::Ask(flow, query),
            Verdict::Reject(rejection) => step matches Step::Done(Err(e)) && rejection.reported_by(
                e,
            ),
            Verdict::Grant(user) => step matches Step::Done(result) && exists|now: i64| #[trigger]
                self.granted_at(user, now, result),
            Verdict::CheckPassword(_, _) => false,
        }
    }

    pub fn new(hasher: Hasher, jwt_service: JwtGenerator) -> (s: UserService)
        ensures
            s.hasher() == hasher,
            s.jwt() == jwt_service,
    {
        UserService { hasher, jwt: jwt_service }
    }

    /// Starts a registration: hashes the password and asks the store for the
    /// username. The hash is salted afresh, so it is stated by what holds of
    /// it: the password verifies against it.
    pub fn register_user(&self, request: RegisterCommand) -> (step: Step)
        ensures
            match step {
                Step::Ask(flow, query) => flow matches Flow::CheckingUsername {
                    email,
                    username,
                    password_hash,
                } && email == request.email && username == request.username
                    && self.hasher().verdict(request.password@, password_hash@) == Some(true)
                    && query == StoreQuery::Find(UserKey::Username(request.username)),
                Step::Done(result) => result matches Err(AppError::Other(m)) && m@
                    == "Failed to hash password"@,
            },
    {
        let hashed = self.hasher.hash_password(request.password.as_str());
        begin_registration(request, hashed)
    }

    /// Starts a login: asks the store for the user with this email.
    pub fn login_user(&self, email: String, password: String) -> (step: Step)
        ensures
            step == Step::Ask(Flow::LoggingIn { password }, StoreQuery::Find(UserKey::Email(email))),
    {
        Step::Ask(Flow::LoggingIn { password }, StoreQuery::Find(UserKey::Email(email)))
    }

    /// Starts an identity refresh: asks the store for the user with this id.
    pub fn get_user_by_id(&self, user_id: u128) -> (step: Step)
        ensures
            step == Step::Ask(Flow::Fetching, StoreQuery::Find(UserKey::Id(user_id))),
    {
        Step::Ask(Flow::Fetching, StoreQuery::Find(UserKey::Id(user_id)))
    }

    /// Hands `user` out with a fresh token.
    pub fn grant(&self, user: User) -> (step: Step)
        ensures
            self.follows(Verdict::Grant(user), step),
    {
        let issued = self.jwt.generate_token(user.id);
        let ghost now = choose|now: i64| self.jwt.generated(user.id, now, issued);
        let result = match issued {
            Ok(token) => Ok((user, token)),
            Err(e) => Err(e),
        };
        assert(self.granted_at(user, now, result));
        Step::Done(result)
    }

    /// Goes on with `flow` after the store has answered `reply`: asks the next
    /// query, rejects, or hands the user out with a fresh token.
    pub fn resume(&self, flow: Flow, reply: StoreReply) -> (step: Step)
        ensures
            self.follows(self.outcome(flow, reply), step),
    {
        match decide(flow, reply) {
            Verdict::Ask(next, query) => Step::Ask(next, query),
            Verdict::Reject(rejection) => Step::Done(Err(rejection.into_error())),
            Verdict::Grant(user) => self.grant(user),
            Verdict::CheckPassword(user, password) => {
                match self.hasher.verify_password(password.as_str(), user.password_hash.as_str()) {
                    Ok(true) => self.grant(user),
                    Ok(false) => Step::Done(Err(AppError::Unauthorized)),
                    Err(e) => Step::Done(Err(e)),
                }
            },
        }
    }
}

/// A login with an email that nobody has and a login with a wrong password
/// end alike: both are rejected as unauthorized, and the error that reports
/// it is the same value with the same message, so that neither tells whether
/// the account exists.
pub proof fn login_failures_are_alike(
    service: UserService,
    password: String,
    user: User,
    e1: AppError,
    e2: AppError,
)
    requires
        service.hasher().verdict(password@, user.password_hash@) == Some(false),
        service.follows(
            service.outcome(Flow::LoggingIn { password }, StoreReply::Found(None)),
            Step::Done(Err(e1)),
        ),
        service.follows(
            service.outcome(Flow::LoggingIn { password }, StoreReply::Found(Some(user))),
            Step::Done(Err(e2)),
        ),
    ensures
        service.outcome(Flow::LoggingIn { password }, StoreReply::Found(None)) == Verdict::Reject(
            Rejection::Unauthorized,
        ),
        service.outcome(Flow::LoggingIn { password }, StoreReply::Found(Some(user)))
            == Verdict::Reject(Rejection::Unauthorized),
        e1 == AppError::Unauthorized,
        e2 == e1,
        e1.public_message_spec() == e2.public_message_spec(),
{
}

/// A registration never asks for an insert once a lookup has found the
/// username or the email, and every refusal on the ground of uniqueness,
/// the store's own at the insert included, is reported as a conflict.
pub proof fn taken_names_are_conflicts(service: UserService, flow: Flow, reply: StoreReply, e: AppError)
    requires
        ((flow is CheckingUsername || flow is CheckingEmail) && reply matches StoreReply::Found(
            Some(_),
        )) || (flow is Inserting && reply is ConstraintViolation),
        service.follows(service.outcome(flow, reply), Step::Done(Err(e))),
    ensures
        service.outcome(flow, reply) is Reject,
        e is Conflict,
{
}

/// A registration hands out no user but the one that the store has reported
/// as inserted: it succeeds only from the insert, and with that record.
pub proof fn registered_user_was_inserted(
    service: UserService,
    flow: Flow,
    reply: StoreReply,
    user: User,
)
    requires
        flow is CheckingUsername || flow is CheckingEmail || flow is Inserting,
        service.outcome(flow, reply) == Verdict::Grant(user),
    ensures
        flow is Inserting,
        reply == StoreReply::Inserted(user),
{
}

/// With the username and the email both taken, the username is the one that
/// the registration reports: it is looked up first, and the email is never
/// asked for.
pub proof fn username_is_reported_first(
    email: String,
    username: String,
    password_hash: String,
    holder: User,
)
    ensures
        decide_spec(
            Flow::CheckingUsername { email, username, password_hash },
            StoreReply::Found(Some(holder)),
        ) == Verdict::Reject(Rejection::UsernameTaken(username)),
{
}

} // verus!
