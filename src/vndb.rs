//! Client settings and the decisions made around each request: which
//! headers it carries, whether it may be sent, and how its status is read.

use crate::endpoint::Endpoint;
use crate::error::Error;
use crate::field_set::FieldSet;
use crate::model::user::{UserField, UserUrlQuery};
use crate::url_query::UrlQueryParams;
use crate::wire::comma_join;
use core::time::Duration;
use vstd::prelude::*;

verus! {

/// How many requests may be in flight at once unless the client says otherwise.
pub const DEFAULT_CONCURRENCY: u8 = 10;

/// The `User-Agent` sent when the client sets none.
pub const DEFAULT_USER_AGENT: &'static str = "vn/0.1.0";

/// A bearer credential for the API.
#[derive(Clone, Debug)]
pub struct Token(String);

impl View for Token {
    type V = Seq<char>;

    closed spec fn view(&self) -> Seq<char> {
        self.0@
    }
}

impl Token {
    /// Takes the text as a token.
    pub fn new(text: &str) -> (r: Token)
        ensures
            r@ == text@,
    {
        Token(text.to_owned())
    }

    /// The value of the `Authorization` header: `Token ` and the token.
    pub fn to_header(&self) -> (r: String)
        ensures
            r@ == "Token "@ + self@,
    {
        let mut s = "Token ".to_owned();
        s.append(self.0.as_str());
        s
    }

    /// The text of the token.
    pub fn as_str(&self) -> (r: &str)
        ensures
            r@ == self@,
    {
        self.0.as_str()
    }
}

impl From<&str> for Token {
    fn from(text: &str) -> (r: Token)
        ensures
            r@ == text@,
    {
        Token::new(text)
    }
}

impl vstd::std_specs::convert::FromSpecImpl<&str> for Token {
    open spec fn obeys_from_spec() -> bool {
        false
    }

    open spec fn from_spec(text: &str) -> Token {
        arbitrary()
    }
}

impl From<String> for Token {
    fn from(text: String) -> (r: Token)
        ensures
            r@ == text@,
    {
        Token(text)
    }
}

impl vstd::std_specs::convert::FromSpecImpl<String> for Token {
    open spec fn obeys_from_spec() -> bool {
        false
    }

    open spec fn from_spec(text: String) -> Token {
        arbitrary()
    }
}

/// The settings of a client, as plain values.
pub struct ClientSettings {
    pub max_concurrent_requests: u8,
    pub token: Option<Seq<char>>,
    pub delay: Option<Duration>,
    pub timeout: Option<Duration>,
    pub user_agent: Option<Seq<char>>,
}

/// Collects the settings of a client: how many requests may run at once, the
/// token, the pause before a request slot is freed, the timeout of each
/// request, and the `User-Agent`.
#[derive(Debug)]
pub struct VndbBuilder {
    max_concurrent_requests: u8,
    token: Option<Token>,
    delay: Option<Duration>,
    timeout: Option<Duration>,
    user_agent: Option<String>,
}

impl View for VndbBuilder {
    type V = ClientSettings;

    closed spec fn view(&self) -> ClientSettings {
        ClientSettings {
            max_concurrent_requests: self.max_concurrent_requests,
            token: match self.token {
                Some(t) => Some(t@),
                None => None,
            },
            delay: self.delay,
            timeout: self.timeout,
            user_agent: match self.user_agent {
                Some(u) => Some(u@),
                None => None,
            },
        }
    }
}

impl VndbBuilder {
    #[verifier::type_invariant]
    spec fn positive_concurrency(self) -> bool {
        self.max_concurrent_requests > 0
    }

    /// The default settings: ten requests at once, no token, no delay, no
    /// timeout, the default `User-Agent`.
    pub fn new() -> (r: VndbBuilder)
        ensures
            r@ == (ClientSettings {
                max_concurrent_requests: DEFAULT_CONCURRENCY,
                token: None,
                delay: None,
                timeout: None,
                user_agent: None,
            }),
    {
        VndbBuilder {
            max_concurrent_requests: DEFAULT_CONCURRENCY,
            token: None,
            delay: None,
            timeout: None,
            user_agent: None,
        }
    }

    /// Sets how many requests may be in flight at once; zero stands for the
    /// default of ten.
    pub fn max_concurrent_requests(self, amount: u8) -> (r: VndbBuilder)
        ensures
            r@ == (ClientSettings {
                max_concurrent_requests: if amount == 0 { DEFAULT_CONCURRENCY } else { amount },
                ..self@
            }),
    {
        let n = if amount == 0 { DEFAULT_CONCURRENCY } else { amount };
        VndbBuilder { max_concurrent_requests: n, ..self }
    }

    /// Sets the token.
    pub fn token(self, token: Token) -> (r: VndbBuilder)
        ensures
            r@ == (ClientSettings { token: Some(token@), ..self@ }),
    {
        proof {
            use_type_invariant(&self);
        }
        VndbBuilder { token: Some(token), ..self }
    }

    /// Sets the pause between the end of a request and the release of its
    /// slot.
    pub fn delay(self, delay: Duration) -> (r: VndbBuilder)
        ensures
            r@ == (ClientSettings { delay: Some(delay), ..self@ }),
    {
        proof {
            use_type_invariant(&self);
        }
        VndbBuilder { delay: Some(delay), ..self }
    }

    /// Sets the timeout of each request.
    pub fn timeout(self, timeout: Duration) -> (r: VndbBuilder)
        ensures
            r@ == (ClientSettings { timeout: Some(timeout), ..self@ }),
    {
        proof {
            use_type_invariant(&self);
        }
        VndbBuilder { timeout: Some(timeout), ..self }
    }

    /// Sets the `User-Agent`.
    pub fn user_agent(self, user_agent: &str) -> (r: VndbBuilder)
        ensures
            r@ == (ClientSettings { user_agent: Some(user_agent@), ..self@ }),
    {
        proof {
            use_type_invariant(&self);
        }
        VndbBuilder { user_agent: Some(user_agent.to_owned()), ..self }
    }

    /// How many requests may be in flight at once; never zero.
    pub fn concurrency(&self) -> (r: u8)
        ensures
            r == self@.max_concurrent_requests,
            r > 0,
    {
        proof {
            use_type_invariant(self);
        }
        self.max_concurrent_requests
    }

    /// The settings, taken apart.
    pub fn into_settings(self) -> (r: (
        u8,
        Option<Token>,
        Option<Duration>,
        Option<Duration>,
        Option<String>,
    ))
        ensures
            r.0 == self@.max_concurrent_requests,
            r.0 > 0,
            self@.token == match r.1 {
                Some(t) => Some(t@),
                None => None::<Seq<char>>,
            },
            r.2 == self@.delay,
            r.3 == self@.timeout,
            self@.user_agent == match r.4 {
                Some(u) => Some(u@),
                None => None::<Seq<char>>,
            },
    {
        proof {
            use_type_invariant(&self);
        }
        (self.max_concurrent_requests, self.token, self.delay, self.timeout, self.user_agent)
    }
}

impl Default for VndbBuilder {
    fn default() -> (r: VndbBuilder)
        ensures
            r@ == (ClientSettings {
                max_concurrent_requests: DEFAULT_CONCURRENCY,
                token: None,
                delay: None,
                timeout: None,
                user_agent: None,
            }),
    {
        VndbBuilder::new()
    }
}

/// The headers of a request: the JSON content type when it has a body, the
/// token when there is one, and the `User-Agent`.
pub open spec fn header_list(
    has_body: bool,
    token: Option<Seq<char>>,
    user_agent: Option<Seq<char>>,
) -> Seq<(Seq<char>, Seq<char>)> {
    (if has_body {
        seq![("content-type"@, "application/json"@)]
    } else {
        Seq::empty()
    }) + (match token {
        Some(t) => seq![("authorization"@, "Token "@ + t)],
        None => Seq::empty(),
    }) + seq![
        ("user-agent"@, match user_agent {
            Some(u) => u,
            None => DEFAULT_USER_AGENT@,
        }),
    ]
}

/// Lists the headers of a request.
pub fn request_headers(has_body: bool, token: Option<&Token>, user_agent: Option<&str>) -> (r: Vec<
    (&'static str, String),
>)
    ensures
        r@.map_values(|p: (&'static str, String)| (p.0@, p.1@)) == header_list(
            has_body,
            match token {
                Some(t) => Some(t@),
                None => None,
            },
            match user_agent {
                Some(u) => Some(u@),
                None => None,
            },
        ),
{
    let mut headers: Vec<(&'static str, String)> = Vec::new();
    if has_body {
        headers.push(("content-type", "application/json".to_owned()));
    }
    match token {
        Some(t) => headers.push(("authorization", t.to_header())),
        None => {},
    }
    match user_agent {
        Some(u) => headers.push(("user-agent", u.to_owned())),
        None => headers.push(("user-agent", DEFAULT_USER_AGENT.to_owned())),
    }
    assert(headers@.map_values(|p: (&'static str, String)| (p.0@, p.1@)) =~= header_list(
        has_body,
        match token {
            Some(t) => Some(t@),
            None => None,
        },
        match user_agent {
            Some(u) => Some(u@),
            None => None,
        },
    ));
    headers
}

/// Whether the endpoint answers only requests that carry a token.
pub open spec fn needs_token(endpoint: Endpoint) -> bool {
    endpoint is AuthInfo
}

/// Refuses, before any request is made, a call to an endpoint that needs a
/// token when the client has none.
pub fn check_token(endpoint: Endpoint, has_token: bool) -> (r: Result<(), Error>)
    ensures
        r is Ok <==> (has_token || !needs_token(endpoint)),
        r is Err ==> r->Err_0 is Unauthorized,
{
    match endpoint {
        Endpoint::AuthInfo => if has_token {
            Ok(())
        } else {
            Err(Error::Unauthorized)
        },
        _ => Ok(()),
    }
}

/// Reads the status of a response: any status outside 2xx fails the request
/// with that status and its reason.
pub fn check_status(status: u16, reason: &str) -> (r: Result<(), Error>)
    ensures
        r is Ok <==> 200 <= status < 300,
        r is Err ==> (r matches Err(Error::RequestFailed { status: s, reason: t }) && s == Some(
            status,
        ) && t@ == reason@),
{
    if 200 <= status && status < 300 {
        Ok(())
    } else {
        Err(Error::RequestFailed { status: Some(status), reason: reason.to_owned() })
    }
}

/// The query-string parameters of a user lookup: one `q` for each text, then
/// the selected fields. `None` when there is nothing to look up, so that no
/// request is sent.
pub fn user_lookup_params(query: UserUrlQuery, fields: FieldSet<UserField>) -> (r: Option<
    UrlQueryParams,
>)
    ensures
        r is None <==> query@.len() == 0,
        r is Some ==> r->Some_0@.len() == query@.len() + 1,
        r is Some ==> r->Some_0@.last() == ("fields"@, comma_join(fields@)),
        r is Some ==> r->Some_0@.drop_last().map_values(|p: (Seq<char>, Seq<char>)| p.1).to_set()
            == query@,
        r is Some ==> forall|i: int|
            0 <= i < query@.len() ==> (#[trigger] r->Some_0@[i]).0 == "q"@,
{
    if query.is_empty() {
        return None;
    }
    let mut params = query.into_query();
    proof {
        let seconds = params@.map_values(|p: (Seq<char>, Seq<char>)| p.1);
        seconds.unique_seq_to_set();
    }
    let ghost before = params@;
    params.extend(fields.into_url_query());
    assert(params@.drop_last() =~= before);
    Some(params)
}

} // verus!
