//! The disclosure server's data: requests, session results, and the rule
//! that turns a raw session result into a disclosed set or a failure.

use vstd::prelude::*;
use crate::text::str_eq;

verus! {

/// Why a session did not yield disclosed attributes.
#[derive(Debug, PartialEq, Eq, Structural, Clone, Copy)]
pub enum Error {
    Incomplete(),
    Cancelled(),
    Timeout(),
    Invalid(),
}

impl Error {
    pub open spec fn message_spec(self) -> Seq<char> {
        match self {
            Error::Incomplete() => "Incomplete session"@,
            Error::Cancelled() => "Cancelled session"@,
            Error::Timeout() => "Session timed out"@,
            Error::Invalid() => "Invalid proof"@,
        }
    }

    /// Human-readable description of the failure.
    pub fn message(&self) -> (r: String)
        ensures
            r@ == self.message_spec(),
    {
        match self {
            Error::Incomplete() => "Incomplete session".to_owned(),
            Error::Cancelled() => "Cancelled session".to_owned(),
            Error::Timeout() => "Session timed out".to_owned(),
            Error::Invalid() => "Invalid proof".to_owned(),
        }
    }
}

/// One requested attribute, by its identifier on the disclosure server.
#[derive(Debug)]
pub enum Attribute {
    Simple(String),
}

impl DeepView for Attribute {
    type V = Seq<char>;

    open spec fn deep_view(&self) -> Seq<char> {
        match self {
            Attribute::Simple(id) => id@,
        }
    }
}

impl Attribute {
    pub fn id(&self) -> (r: &String)
        ensures
            r@ == self.deep_view(),
    {
        match self {
            Attribute::Simple(id) => id,
        }
    }
}

/// Outer list: one slot per requested attribute. Each slot is a choice
/// between inner conjunctions of identifiers.
pub type ConDisCon = Vec<Vec<Vec<Attribute>>>;

#[derive(Debug)]
pub struct IrmaDisclosureRequest {
    pub disclose: ConDisCon,
    pub return_url: Option<String>,
    pub augment_return: bool,
}

#[derive(Debug)]
pub enum IrmaRequest {
    Disclosure(IrmaDisclosureRequest),
}

#[derive(Debug, PartialEq, Eq, Structural, Clone, Copy)]
pub enum ProofStatus {
    Valid,
    Invalid,
    InvalidTimestamp,
    UnmatchedRequest,
    MissingAttributes,
    Expired,
}

#[derive(Debug, PartialEq, Eq, Structural, Clone, Copy)]
pub enum SessionStatus {
    Initialized,
    Connected,
    Cancelled,
    Done,
    Timeout,
}

impl SessionStatus {
    /// The name of the status as the disclosure server writes it.
    pub open spec fn name_spec(self) -> Seq<char> {
        match self {
            SessionStatus::Initialized => "INITIALIZED"@,
            SessionStatus::Connected => "CONNECTED"@,
            SessionStatus::Cancelled => "CANCELLED"@,
            SessionStatus::Done => "DONE"@,
            SessionStatus::Timeout => "TIMEOUT"@,
        }
    }

    /// The status that a name stands for, if it is the name of one.
    pub open spec fn named(name: Seq<char>) -> Option<SessionStatus> {
        if name == "INITIALIZED"@ {
            Some(SessionStatus::Initialized)
        } else if name == "CONNECTED"@ {
            Some(SessionStatus::Connected)
        } else if name == "CANCELLED"@ {
            Some(SessionStatus::Cancelled)
        } else if name == "DONE"@ {
            Some(SessionStatus::Done)
        } else if name == "TIMEOUT"@ {
            Some(SessionStatus::Timeout)
        } else {
            None
        }
    }

    pub fn name(&self) -> (r: &'static str)
        ensures
            r@ == self.name_spec(),
    {
        match self {
            SessionStatus::Initialized => "INITIALIZED",
            SessionStatus::Connected => "CONNECTED",
            SessionStatus::Cancelled => "CANCELLED",
            SessionStatus::Done => "DONE",
            SessionStatus::Timeout => "TIMEOUT",
        }
    }

    /// Reads a status from its name; the names are matched letter for
    /// letter.
    pub fn from_name(name: &str) -> (r: Option<SessionStatus>)
        ensures
            r == Self::named(name@),
    {
        if str_eq(name, "INITIALIZED") {
            Some(SessionStatus::Initialized)
        } else if str_eq(name, "CONNECTED") {
            Some(SessionStatus::Connected)
        } else if str_eq(name, "CANCELLED") {
            Some(SessionStatus::Cancelled)
        } else if str_eq(name, "DONE") {
            Some(SessionStatus::Done)
        } else if str_eq(name, "TIMEOUT") {
            Some(SessionStatus::Timeout)
        } else {
            None
        }
    }

    /// Every status is read back from its own name.
    pub proof fn law_name_reads_back(self)
        ensures
            Self::named(self.name_spec()) == Some(self),
    {
        reveal_strlit("INITIALIZED");
        reveal_strlit("CONNECTED");
        reveal_strlit("CANCELLED");
        reveal_strlit("DONE");
        reveal_strlit("TIMEOUT");
        assert("INITIALIZED"@.len() == 11 && "CONNECTED"@.len() == 9 && "CANCELLED"@.len() == 9);
        assert("DONE"@.len() == 4 && "TIMEOUT"@.len() == 7);
        assert("CONNECTED"@[1] == 'O' && "CANCELLED"@[1] == 'A');
    }
}

/// One disclosed attribute: its identifier and the value shown.
#[derive(Debug)]
pub struct AttributeResult {
    pub id: String,
    pub rawvalue: String,
}

impl DeepView for AttributeResult {
    type V = (Seq<char>, Seq<char>);

    /// The identifier, then the value.
    open spec fn deep_view(&self) -> (Seq<char>, Seq<char>) {
        (self.id@, self.rawvalue@)
    }
}

/// A session result as the server reports it, before any judgement.
#[derive(Debug)]
pub struct RawIrmaResult {
    pub status: SessionStatus,
    pub proof_status: ProofStatus,
    pub disclosed: Vec<Vec<AttributeResult>>,
}

/// The disclosed groups of a session that finished with a valid proof.
#[derive(Debug)]
pub struct IrmaResult {
    pub disclosed: Vec<Vec<AttributeResult>>,
}

/// The failure that a pair of statuses stands for, or `None` where the
/// session is done and its proof valid.
pub open spec fn session_failure(status: SessionStatus, proof_status: ProofStatus) -> Option<Error> {
    match status {
        SessionStatus::Cancelled => Some(Error::Cancelled()),
        SessionStatus::Timeout => Some(Error::Timeout()),
        SessionStatus::Done => if proof_status == ProofStatus::Valid {
            None
        } else {
            Some(Error::Invalid())
        },
        _ => Some(Error::Incomplete()),
    }
}

impl IrmaResult {
    /// Accepts a raw result only when the session is done and the proof is
    /// valid; every other pair of statuses is the failure it stands for.
    pub fn try_from(value: RawIrmaResult) -> (r: Result<IrmaResult, Error>)
        ensures
            match r {
                Ok(result) => session_failure(value.status, value.proof_status) is None
                    && result.disclosed == value.disclosed,
                Err(e) => session_failure(value.status, value.proof_status) == Some(e),
            },
    {
        match value.status {
            SessionStatus::Cancelled => Err(Error::Cancelled()),
            SessionStatus::Timeout => Err(Error::Timeout()),
            SessionStatus::Done => match value.proof_status {
                ProofStatus::Valid => Ok(IrmaResult { disclosed: value.disclosed }),
                _ => Err(Error::Invalid()),
            },
            _ => Err(Error::Incomplete()),
        }
    }
}

/// A started session: the pointer to show to the user's app, and the token
/// by which its result is fetched later.
#[derive(Debug)]
pub struct IrmaSession {
    pub qr: String,
    pub token: String,
}

/// Where the disclosure server is, as the configuration names it.
#[derive(Debug)]
pub struct IrmaserverConfig {
    pub url: String,
    pub auth_token: Option<String>,
}

/// Address of a disclosure server, with the static token it may require.
#[derive(Debug)]
pub struct IrmaServer {
    server_url: String,
    auth_token: Option<String>,
}

impl IrmaServer {
    pub closed spec fn url(self) -> Seq<char> {
        self.server_url@
    }

    pub closed spec fn token(self) -> Option<Seq<char>> {
        match self.auth_token {
            Some(t) => Some(t@),
            None => None,
        }
    }

    pub fn new(server_url: &str) -> (r: IrmaServer)
        ensures
            r.url() == server_url@,
            r.token() is None,
    {
        IrmaServer { server_url: server_url.to_owned(), auth_token: None }
    }

    pub fn new_with_auth(server_url: &str, auth_token: &str) -> (r: IrmaServer)
        ensures
            r.url() == server_url@,
            r.token() == Some(auth_token@),
    {
        IrmaServer { server_url: server_url.to_owned(), auth_token: Some(auth_token.to_owned()) }
    }

    /// The server that a configuration names, with its token if it has one.
    pub fn from(config: IrmaserverConfig) -> (r: IrmaServer)
        ensures
            r.url() == config.url@,
            r.token() == match config.auth_token {
                Some(token) => Some(token@),
                None => None,
            },
    {
        match config.auth_token {
            Some(token) => Self::new_with_auth(config.url.as_str(), token.as_str()),
            None => Self::new(config.url.as_str()),
        }
    }

    /// The value of the `Authorization` header, where the server wants one.
    pub fn auth_token(&self) -> (r: Option<&String>)
        ensures
            match r {
                Some(t) => self.token() == Some(t@),
                None => self.token() is None,
            },
    {
        self.auth_token.as_ref()
    }

    /// Where a session is started: the server's address followed by `/session`.
    pub fn session_url(&self) -> (r: String)
        ensures
            r@ == self.url() + "/session"@,
    {
        let r = self.server_url.clone();
        r.concat("/session")
    }

    /// Where the result of the session with the given token is fetched.
    pub fn result_url(&self, token: &str) -> (r: String)
        ensures
            r@ == self.url() + "/session/"@ + token@ + "/result"@,
    {
        let r = self.server_url.clone();
        let r = r.concat("/session/");
        let r = r.concat(token);
        r.concat("/result")
    }
}

} // verus!
