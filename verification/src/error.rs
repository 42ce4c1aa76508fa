use vstd::prelude::*;

verus! {

/// Why an operation of the identity core failed.
///
/// `Db` and `Other` carry a detail that is meant for the server's log only;
/// [`AppError::public_message`] never reveals it.
#[derive(Debug, Clone)]
pub enum AppError {
    NotFound,
    Unauthorized,
    BadRequest(String),
    Conflict(String),
    Db(String),
    Other(String),
}

impl AppError {
    /// The HTTP status that stands for this error.
    pub open spec fn status_spec(self) -> int {
        match self {
            AppError::NotFound => 404,
            AppError::Unauthorized => 401,
            AppError::BadRequest(_) => 422,
            AppError::Conflict(_) => 409,
            AppError::Db(_) => 500,
            AppError::Other(_) => 500,
        }
    }

    /// The text that may be shown to the caller.
    pub open spec fn public_message_spec(self) -> Seq<char> {
        match self {
            AppError::NotFound => "Not found"@,
            AppError::Unauthorized => "Unauthorized"@,
            AppError::BadRequest(msg) => msg@,
            AppError::Conflict(msg) => msg@,
            AppError::Db(_) => "Database error"@,
            AppError::Other(_) => "Internal server error"@,
        }
    }

    /// The text of the error as the server describes it to itself.
    pub open spec fn describe_spec(self) -> Seq<char> {
        match self {
            AppError::NotFound => "Resource not found"@,
            AppError::Unauthorized => "Unauthorized"@,
            AppError::BadRequest(msg) => "Bad request: "@ + msg@,
            AppError::Conflict(msg) => "Conflict: "@ + msg@,
            AppError::Db(_) => "Database error"@,
            AppError::Other(detail) => "Internal error: "@ + detail@,
        }
    }

    pub fn status_code(&self) -> (code: u16)
        ensures
            code as int == self.status_spec(),
    {
        match self {
            AppError::NotFound => 404,
            AppError::Unauthorized => 401,
            AppError::BadRequest(_) => 422,
            AppError::Conflict(_) => 409,
            AppError::Db(_) => 500,
            AppError::Other(_) => 500,
        }
    }

    /// The message for the response body. Internal detail (of `Db` and
    /// `Other`) never crosses this boundary.
    pub fn public_message(&self) -> (msg: String)
        ensures
            msg@ == self.public_message_spec(),
    {
        match self {
            AppError::NotFound => "Not found".to_owned(),
            AppError::Unauthorized => "Unauthorized".to_owned(),
            AppError::BadRequest(msg) => msg.clone(),
            AppError::Conflict(msg) => msg.clone(),
            AppError::Db(_) => "Database error".to_owned(),
            AppError::Other(_) => "Internal server error".to_owned(),
        }
    }

    /// The error as one line of text.
    pub fn describe(&self) -> (text: String)
        ensures
            text@ == self.describe_spec(),
    {
        match self {
            AppError::NotFound => "Resource not found".to_owned(),
            AppError::Unauthorized => "Unauthorized".to_owned(),
            AppError::BadRequest(msg) => "Bad request: ".to_owned().concat(msg.as_str()),
            AppError::Conflict(msg) => "Conflict: ".to_owned().concat(msg.as_str()),
            AppError::Db(_) => "Database error".to_owned(),
            AppError::Other(detail) => "Internal error: ".to_owned().concat(detail.as_str()),
        }
    }
}

} // verus!
