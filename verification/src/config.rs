use vstd::prelude::*;

verus! {

/// Where the HTTP server listens.
#[derive(Debug, Clone)]
pub struct HttpConfig {
    pub host: String,
    pub port: u16,
}

/// A secret value: a password, the pepper, the signing key. The type has no
/// `Debug`, and neither has any type that holds one, so that a secret cannot
/// reach a log by the way; [`Secret::expose`] is the one way to the text.
#[derive(Clone)]
pub struct Secret {
    value: String,
}

impl Secret {
    pub closed spec fn view(&self) -> Seq<char> {
        self.value@
    }

    pub fn new(value: String) -> (s: Secret)
        ensures
            s@ == value@,
    {
        Secret { value }
    }

    pub fn expose(&self) -> (text: &str)
        ensures
            text@ == self@,
    {
        self.value.as_str()
    }
}

/// How to reach the relational store.
#[derive(Clone)]
pub struct DatabaseConfig {
    pub user: String,
    pub database: String,
    pub password: Secret,
    pub address: String,
    pub max_connections: u32,
}

/// The two process-wide secrets.
#[derive(Clone)]
pub struct SecretsConfig {
    pub pepper: Secret,
    pub jwt: Secret,
}

/// The whole configuration of the process.
#[derive(Clone)]
pub struct AppConfig {
    pub http: HttpConfig,
    pub database: DatabaseConfig,
    pub secrets: SecretsConfig,
}

/// The character of one decimal digit.
pub open spec fn digit_char(d: nat) -> char {
    if d == 0 {
        '0'
    } else if d == 1 {
        '1'
    } else if d == 2 {
        '2'
    } else if d == 3 {
        '3'
    } else if d == 4 {
        '4'
    } else if d == 5 {
        '5'
    } else if d == 6 {
        '6'
    } else if d == 7 {
        '7'
    } else if d == 8 {
        '8'
    } else {
        '9'
    }
}

/// A number in decimal, without leading zeros.
pub open spec fn decimal_text(n: nat) -> Seq<char>
    decreases n,
{
    if n < 10 {
        seq![digit_char(n)]
    } else {
        decimal_text(n / 10).push(digit_char(n % 10))
    }
}

fn digit_str(d: u16) -> (s: &'static str)
    requires
        d < 10,
    ensures
        s@ == seq![digit_char(d as nat)],
{
    proof {
        reveal_strlit("0");
        reveal_strlit("1");
        reveal_strlit("2");
        reveal_strlit("3");
        reveal_strlit("4");
        reveal_strlit("5");
        reveal_strlit("6");
        reveal_strlit("7");
        reveal_strlit("8");
        reveal_strlit("9");
    }
    let s = if d == 0 {
        "0"
    } else if d == 1 {
        "1"
    } else if d == 2 {
        "2"
    } else if d == 3 {
        "3"
    } else if d == 4 {
        "4"
    } else if d == 5 {
        "5"
    } else if d == 6 {
        "6"
    } else if d == 7 {
        "7"
    } else if d == 8 {
        "8"
    } else {
        "9"
    };
    assert(s@ =~= seq![digit_char(d as nat)]);
    s
}

/// Writes `n` in decimal.
pub fn decimal(n: u16) -> (text: String)
    ensures
        text@ == decimal_text(n as nat),
    decreases n,
{
    if n < 10 {
        digit_str(n).to_owned()
    } else {
        let head = decimal(n / 10);
        let text = head.concat(digit_str(n % 10));
        assert(text@ =~= decimal_text((n / 10) as nat).push(digit_char((n % 10) as nat)));
        text
    }
}

impl HttpConfig {
    pub open spec fn url_spec(self) -> Seq<char> {
        self.host@ + ":"@ + decimal_text(self.port as nat)
    }

    /// The address to bind: host, a colon, the port in decimal.
    pub fn url(&self) -> (text: String)
        ensures
            text@ == self.url_spec(),
    {
        let port = decimal(self.port);
        self.host.clone().concat(":").concat(port.as_str())
    }
}

impl DatabaseConfig {
    pub open spec fn connection_url_spec(self) -> Seq<char> {
        "postgresql://"@ + self.user@ + ":"@ + self.password@ + "@"@ + self.address@ + "/"@
            + self.database@
    }

    /// The connection string of the store. It holds the password: it is for
    /// the connection call alone and must not be logged.
    pub fn connection_url(&self) -> (text: String)
        ensures
            text@ == self.connection_url_spec(),
    {
        "postgresql://".to_owned().concat(self.user.as_str()).concat(":").concat(
            self.password.expose(),
        ).concat("@").concat(self.address.as_str()).concat("/").concat(self.database.as_str())
    }
}

} // verus!
