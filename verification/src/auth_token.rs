use vstd::prelude::*;

verus! {

/// A bearer token as it was presented in a request. It has no `Debug`: a
/// token is a credential and does not belong in a log.
pub struct AuthToken(String);

/// Why no bearer token could be taken from a request.
#[derive(Debug, Clone, Copy, PartialEq, Eq, Structural)]
pub enum AuthRejection {
    MissingHeader,
    InvalidBearer,
}

/// Whether `text` begins with `prefix`.
pub open spec fn starts_with(text: Seq<char>, prefix: Seq<char>) -> bool {
    prefix.len() <= text.len() && text.subrange(0, prefix.len() as int) == prefix
}

/// `str::strip_prefix` of std: the text behind `prefix` where `text` begins
/// with it, and nothing where it does not.
#[verifier::external_body]
fn strip_prefix<'a>(text: &'a str, prefix: &str) -> (rest: Option<&'a str>)
    ensures
        rest.is_some() == starts_with(text@, prefix@),
        rest matches Some(r) ==> r@ == text@.subrange(prefix@.len() as int, text@.len() as int),
{
    text.strip_prefix(prefix)
}

impl AuthRejection {
    pub open spec fn status_spec(self) -> int {
        401
    }

    pub open spec fn message_spec(self) -> Seq<char> {
        match self {
            AuthRejection::MissingHeader => "Missing Authorization header"@,
            AuthRejection::InvalidBearer => "Invalid Bearer token"@,
        }
    }

    pub fn status_code(&self) -> (code: u16)
        ensures
            code as int == self.status_spec(),
    {
        401
    }

    pub fn message(&self) -> (text: &'static str)
        ensures
            text@ == self.message_spec(),
    {
        match self {
            AuthRejection::MissingHeader => "Missing Authorization header",
            AuthRejection::InvalidBearer => "Invalid Bearer token",
        }
    }
}

impl AuthToken {
    pub closed spec fn view(&self) -> Seq<char> {
        self.0@
    }

    pub fn value(&self) -> (text: &str)
        ensures
            text@ == self@,
    {
        self.0.as_str()
    }

    /// What the value of an `Authorization` header yields: the text behind
    /// `Bearer ` is the token. `header` is `None` where the request has no such
    /// header, or one that is not text.
    pub open spec fn from_header_spec(header: Option<Seq<char>>) -> Result<
        Seq<char>,
        AuthRejection,
    > {
        match header {
            None => Err(AuthRejection::MissingHeader),
            Some(text) => if starts_with(text, "Bearer "@) {
                Ok(text.subrange("Bearer "@.len() as int, text.len() as int))
            } else {
                Err(AuthRejection::InvalidBearer)
            },
        }
    }

    /// Takes the bearer token from the value of an `Authorization` header.
    pub fn from_header(header: Option<&str>) -> (r: Result<AuthToken, AuthRejection>)
        ensures
            match Self::from_header_spec(
                match header {
                    Some(h) => Some(h@),
                    None => None,
                },
            ) {
                Ok(token) => r matches Ok(t) && t@ == token,
                Err(e) => r == Err::<AuthToken, AuthRejection>(e),
            },
    {
        match header {
            None => Err(AuthRejection::MissingHeader),
            Some(text) => match strip_prefix(text, "Bearer ") {
                Some(rest) => Ok(AuthToken(rest.to_owned())),
                None => Err(AuthRejection::InvalidBearer),
            },
        }
    }
}

} // verus!
