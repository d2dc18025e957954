use vstd::prelude::*;
use crate::config::BridgeConfig;
use crate::model::{LoginRequest, User};
use crate::text::{int_text, signed_decimal_of};

verus! {

/// The HTTP methods that the remote API is called with.
#[derive(Clone, Copy, Debug, PartialEq, Eq, Structural)]
pub enum Method {
    Get,
    Post,
    Put,
    Delete,
}

/// The commands that the bridge offers, without their arguments.
#[derive(Clone, Copy, Debug, PartialEq, Eq, Structural)]
pub enum Command {
    Login,
    GetUsers,
    CreateUser,
    UpdateUser,
    DeleteUser,
    CheckServerStatus,
}

/// A call of the remote API, with everything it carries.
#[derive(Clone, Debug)]
pub enum Operation {
    Login { request: LoginRequest },
    GetUsers { token: String },
    CreateUser { token: String, user: User },
    UpdateUser { token: String, id: i32, user: User },
    DeleteUser { token: String, id: i32 },
    CheckServerStatus,
}

/// What a request sends as its JSON body.
#[derive(Clone, Debug)]
pub enum Body {
    Empty,
    Login(LoginRequest),
    User(User),
}

/// One request header.
#[derive(Clone, Debug)]
pub struct Header {
    pub name: String,
    pub value: String,
}

/// A request ready to be sent.
#[derive(Clone, Debug)]
pub struct HttpRequest {
    pub method: Method,
    pub url: String,
    pub headers: Vec<Header>,
    pub body: Body,
    pub timeout_seconds: u64,
}

/// A header as a pair of name and value.
pub open spec fn header_view(h: Header) -> (Seq<char>, Seq<char>) {
    (h.name@, h.value@)
}

/// The headers of a request as pairs of name and value.
pub open spec fn headers_view(hs: Seq<Header>) -> Seq<(Seq<char>, Seq<char>)> {
    hs.map_values(|h: Header| header_view(h))
}

/// The name of the header that carries the credential.
pub open spec fn authorization() -> Seq<char> {
    "Authorization"@
}

/// The value of the credential header for `token`.
pub open spec fn bearer_of(token: Seq<char>) -> Seq<char> {
    "Bearer "@ + token
}

/// How many of `hs` are named `name`.
pub open spec fn count_named(hs: Seq<(Seq<char>, Seq<char>)>, name: Seq<char>) -> nat
    decreases hs.len(),
{
    if hs.len() == 0 {
        0
    } else {
        count_named(hs.drop_last(), name) + if hs.last().0 == name {
            1nat
        } else {
            0nat
        }
    }
}

impl Operation {
    /// The command that this call belongs to.
    pub open spec fn command_of(self) -> Command {
        match self {
            Operation::Login { .. } => Command::Login,
            Operation::GetUsers { .. } => Command::GetUsers,
            Operation::CreateUser { .. } => Command::CreateUser,
            Operation::UpdateUser { .. } => Command::UpdateUser,
            Operation::DeleteUser { .. } => Command::DeleteUser,
            Operation::CheckServerStatus => Command::CheckServerStatus,
        }
    }

    /// The bearer token that the call carries, if it is one that needs it.
    pub open spec fn token_of(self) -> Option<Seq<char>> {
        match self {
            Operation::GetUsers { token } => Some(token@),
            Operation::CreateUser { token, .. } => Some(token@),
            Operation::UpdateUser { token, .. } => Some(token@),
            Operation::DeleteUser { token, .. } => Some(token@),
            _ => None,
        }
    }

    /// The JSON body that the call sends.
    pub open spec fn body_of(self) -> Body {
        match self {
            Operation::Login { request } => Body::Login(request),
            Operation::CreateUser { user, .. } => Body::User(user),
            Operation::UpdateUser { user, .. } => Body::User(user),
            _ => Body::Empty,
        }
    }

    /// The path of the call below the base URL.
    pub open spec fn path_of(self) -> Seq<char> {
        match self {
            Operation::Login { .. } => "/auth/login"@,
            Operation::GetUsers { .. } => "/users"@,
            Operation::CreateUser { .. } => "/users"@,
            Operation::UpdateUser { id, .. } => "/users/"@ + signed_decimal_of(id as int),
            Operation::DeleteUser { id, .. } => "/users/"@ + signed_decimal_of(id as int),
            Operation::CheckServerStatus => "/health"@,
        }
    }

    /// The headers that the call sends.
    pub open spec fn headers_of(self) -> Seq<(Seq<char>, Seq<char>)> {
        match self.token_of() {
            Some(t) => seq![(authorization(), bearer_of(t))],
            None => seq![],
        }
    }

    /// The command that this call belongs to.
    pub fn command(&self) -> (r: Command)
        ensures
            r == self.command_of(),
    {
        match self {
            Operation::Login { .. } => Command::Login,
            Operation::GetUsers { .. } => Command::GetUsers,
            Operation::CreateUser { .. } => Command::CreateUser,
            Operation::UpdateUser { .. } => Command::UpdateUser,
            Operation::DeleteUser { .. } => Command::DeleteUser,
            Operation::CheckServerStatus => Command::CheckServerStatus,
        }
    }
}

/// The HTTP method of each command.
pub open spec fn method_of(c: Command) -> Method {
    match c {
        Command::Login => Method::Post,
        Command::GetUsers => Method::Get,
        Command::CreateUser => Method::Post,
        Command::UpdateUser => Method::Put,
        Command::DeleteUser => Method::Delete,
        Command::CheckServerStatus => Method::Get,
    }
}

/// The HTTP method of a command.
pub fn method_for(c: Command) -> (r: Method)
    ensures
        r == method_of(c),
{
    match c {
        Command::Login => Method::Post,
        Command::GetUsers => Method::Get,
        Command::CreateUser => Method::Post,
        Command::UpdateUser => Method::Put,
        Command::DeleteUser => Method::Delete,
        Command::CheckServerStatus => Method::Get,
    }
}

fn bearer_header(token: &str) -> (r: Header)
    ensures
        header_view(r) == (authorization(), bearer_of(token@)),
{
    proof {
        reveal_strlit("Authorization");
        reveal_strlit("Bearer ");
    }
    let mut value = String::from_str("Bearer ");
    value.append(token);
    Header { name: String::from_str("Authorization"), value }
}

fn user_url(base: &str, id: i32) -> (r: String)
    ensures
        r@ == base@ + "/users/"@ + signed_decimal_of(id as int),
{
    let mut url = String::from_str(base);
    url.append("/users/");
    let digits = int_text(id);
    url.append(digits.as_str());
    url
}

/// Builds the request of a call: method, URL under the configured base, the
/// bearer credential for the user endpoints, and the JSON body.
pub fn build_request(config: &BridgeConfig, op: Operation) -> (r: HttpRequest)
    ensures
        r.method == method_of(op.command_of()),
        r.url@ == config.base_url@ + op.path_of(),
        headers_view(r.headers@) == op.headers_of(),
        r.body == op.body_of(),
        r.timeout_seconds == config.timeout_seconds,
{
    let method = method_for(op.command());
    let base = config.base_url.as_str();
    let mut headers: Vec<Header> = Vec::new();
    let mut url = String::from_str(base);
    let body = match op {
        Operation::Login { request } => {
            url.append("/auth/login");
            Body::Login(request)
        },
        Operation::GetUsers { token } => {
            url.append("/users");
            headers.push(bearer_header(token.as_str()));
            Body::Empty
        },
        Operation::CreateUser { token, user } => {
            url.append("/users");
            headers.push(bearer_header(token.as_str()));
            Body::User(user)
        },
        Operation::UpdateUser { token, id, user } => {
            url = user_url(base, id);
            headers.push(bearer_header(token.as_str()));
            Body::User(user)
        },
        Operation::DeleteUser { token, id } => {
            url = user_url(base, id);
            headers.push(bearer_header(token.as_str()));
            Body::Empty
        },
        Operation::CheckServerStatus => {
            url.append("/health");
            Body::Empty
        },
    };
    proof {
        assert(headers_view(headers@) =~= op.headers_of());
    }
    HttpRequest { method, url, headers, body, timeout_seconds: config.timeout_seconds }
}

/// A call carries the bearer credential exactly once when it is one of the
/// user endpoints, and not at all for login or the health check.
pub proof fn lemma_bearer_attached_once(op: Operation)
    ensures
        count_named(op.headers_of(), authorization()) == if op.token_of() is Some {
            1nat
        } else {
            0nat
        },
        op.token_of() is Some <==> (op.command_of() == Command::GetUsers || op.command_of()
            == Command::CreateUser || op.command_of() == Command::UpdateUser
            || op.command_of() == Command::DeleteUser),
        forall|i: int|
            0 <= i < op.headers_of().len() ==> op.headers_of()[i] == (
                authorization(),
                bearer_of(op.token_of().unwrap()),
            ),
{
    let hs = op.headers_of();
    if op.token_of() is Some {
        assert(hs.drop_last() =~= Seq::<(Seq<char>, Seq<char>)>::empty());
        assert(count_named(hs.drop_last(), authorization()) == 0);
        assert(hs.last().0 == authorization());
    } else {
        assert(hs.len() == 0);
    }
}

} // verus!
