use vstd::prelude::*;
use crate::model::ApiResponse;
use crate::request::Command;
use crate::status::{display_status, is_success_status, is_status_code, is_success_code, status_reason_of};
use crate::text::{decimal_of, lemma_three_digits};

verus! {

/// What came of sending a request: no answer, or an answer with a status code.
#[derive(Clone, Debug)]
pub enum SendOutcome {
    /// The request did not reach the server or got no answer; the cause.
    TransportError(String),
    /// The server answered with this status code.
    Responded(u16),
}

/// Whether an outcome can come from an HTTP exchange at all.
pub open spec fn is_valid_outcome(o: SendOutcome) -> bool {
    o matches SendOutcome::Responded(code) ==> is_status_code(code)
}

/// How each command is named in its failure message.
pub open spec fn label_of(c: Command) -> Seq<char> {
    match c {
        Command::Login => "login"@,
        Command::GetUsers => "get user list"@,
        Command::CreateUser => "create user"@,
        Command::UpdateUser => "update user"@,
        Command::DeleteUser => "delete user"@,
        Command::CheckServerStatus => "check server status"@,
    }
}

/// The message of a request that got no answer.
pub open spec fn network_message(detail: Seq<char>) -> Seq<char> {
    "network request failed: "@ + detail
}

/// The message of an answer whose body could not be decoded.
pub open spec fn parse_message(detail: Seq<char>) -> Seq<char> {
    "failed to parse response: "@ + detail
}

/// The message of an answer with a status outside the 2xx class.
pub open spec fn status_message(c: Command, code: u16) -> Seq<char> {
    label_of(c) + " failed: HTTP "@ + decimal_of(code as nat) + seq![' '] + status_reason_of(code)
}

/// Whether `part` occurs in `text`.
pub open spec fn contains_text(text: Seq<char>, part: Seq<char>) -> bool {
    exists|i: int| 0 <= i <= text.len() - part.len() && #[trigger] text.subrange(i, i + part.len()) == part
}

/// What a command makes of the outcome of sending its request: go on and read
/// the body, or fail with a message.
pub open spec fn send_verdict(c: Command, o: SendOutcome) -> Result<(), Seq<char>> {
    match o {
        SendOutcome::TransportError(d) => Err(network_message(d@)),
        SendOutcome::Responded(code) => if is_success_code(code) {
            Ok(())
        } else {
            Err(status_message(c, code))
        },
    }
}

/// What a command returns for the result of decoding the body.
pub open spec fn decode_verdict<T>(d: Result<ApiResponse<T>, String>) -> Result<ApiResponse<T>, Seq<char>> {
    match d {
        Ok(v) => Ok(v),
        Err(e) => Err(parse_message(e@)),
    }
}

/// A result with its error seen as text.
pub open spec fn result_view<T>(r: Result<T, String>) -> Result<T, Seq<char>> {
    match r {
        Ok(v) => Ok(v),
        Err(e) => Err(e@),
    }
}

/// The message of a delete that succeeded.
pub open spec fn deleted_message() -> Seq<char> {
    "deleted"@
}

fn command_label(c: Command) -> (r: &'static str)
    ensures
        r@ == label_of(c),
{
    proof {
        reveal_strlit("login");
        reveal_strlit("get user list");
        reveal_strlit("create user");
        reveal_strlit("update user");
        reveal_strlit("delete user");
        reveal_strlit("check server status");
    }
    match c {
        Command::Login => "login",
        Command::GetUsers => "get user list",
        Command::CreateUser => "create user",
        Command::UpdateUser => "update user",
        Command::DeleteUser => "delete user",
        Command::CheckServerStatus => "check server status",
    }
}

/// Builds the message of a request that got no answer.
pub fn network_error(detail: &str) -> (r: String)
    ensures
        r@ == network_message(detail@),
{
    let mut m = String::from_str("network request failed: ");
    m.append(detail);
    m
}

/// Builds the message of an answer whose body could not be decoded.
pub fn parse_error(detail: &str) -> (r: String)
    ensures
        r@ == parse_message(detail@),
{
    let mut m = String::from_str("failed to parse response: ");
    m.append(detail);
    m
}

/// Builds the message of a notification that the system refused.
pub fn notification_error(detail: &str) -> (r: String)
    ensures
        r@ == "failed to show notification: "@ + detail@,
{
    let mut m = String::from_str("failed to show notification: ");
    m.append(detail);
    m
}

/// Builds the message of an answer with a status outside the 2xx class.
pub fn status_error(c: Command, code: u16) -> (r: String)
    requires
        is_status_code(code),
    ensures
        r@ == status_message(c, code),
{
    let mut m = String::from_str(command_label(c));
    m.append(" failed: HTTP ");
    let status = display_status(code);
    m.append(status.as_str());
    proof {
        assert(m@ =~= status_message(c, code));
    }
    m
}

/// Decides what a command does once its request has been sent: read the body
/// on a 2xx answer, else fail with the network or the status message.
pub fn after_send(c: Command, outcome: &SendOutcome) -> (r: Result<(), String>)
    requires
        is_valid_outcome(*outcome),
    ensures
        result_view(r) == send_verdict(c, *outcome),
{
    match outcome {
        SendOutcome::TransportError(d) => Err(network_error(d.as_str())),
        SendOutcome::Responded(code) => {
            if is_success_status(*code) {
                Ok(())
            } else {
                Err(status_error(c, *code))
            }
        },
    }
}

/// Hands on a decoded envelope as it is, or fails with the decoding message.
pub fn after_decode<T>(decoded: Result<ApiResponse<T>, String>) -> (r: Result<ApiResponse<T>, String>)
    ensures
        result_view(r) == decode_verdict(decoded),
{
    match decoded {
        Ok(v) => Ok(v),
        Err(e) => Err(parse_error(e.as_str())),
    }
}

/// Decides what `delete_user` returns once its request has been sent: on a
/// 2xx answer a fixed envelope, whatever the body held; else the network or
/// the status message.
pub fn delete_outcome(outcome: &SendOutcome) -> (r: Result<ApiResponse<()>, String>)
    requires
        is_valid_outcome(*outcome),
    ensures
        match send_verdict(Command::DeleteUser, *outcome) {
            Ok(_) => r matches Ok(env) && env.success && env.message@ == deleted_message()
                && env.data is None && env.code == 200,
            Err(m) => r matches Err(e) && e@ == m,
        },
{
    match after_send(Command::DeleteUser, outcome) {
        Ok(()) => Ok(ApiResponse {
            success: true,
            message: String::from_str("deleted"),
            data: None,
            code: 200,
        }),
        Err(e) => Err(e),
    }
}

/// Whether the health check found the server up: only a 2xx answer counts;
/// no answer and any other status both mean down.
pub fn server_status(outcome: &SendOutcome) -> (r: bool)
    ensures
        r == (*outcome matches SendOutcome::Responded(code) && is_success_code(code)),
{
    match outcome {
        SendOutcome::TransportError(_) => false,
        SendOutcome::Responded(code) => is_success_status(*code),
    }
}

/// Login: a 2xx answer goes on to decoding, and a decoded envelope comes back
/// as it was, payload included; a 4xx or 5xx answer fails with a message that
/// holds the status code.
pub proof fn lemma_login_outcomes<T>(code: u16, envelope: ApiResponse<T>)
    requires
        is_status_code(code),
    ensures
        is_success_code(code) ==> send_verdict(Command::Login, SendOutcome::Responded(code))
            == Ok::<(), Seq<char>>(()),
        decode_verdict(Ok::<ApiResponse<T>, String>(envelope)) == Ok::<ApiResponse<T>, Seq<char>>(
            envelope,
        ),
        400 <= code < 600 ==> (send_verdict(Command::Login, SendOutcome::Responded(code)) matches Err(
            m,
        ) && contains_text(m, decimal_of(code as nat))),
{
    if 400 <= code < 600 {
        lemma_three_digits(code as nat);
        let m = status_message(Command::Login, code);
        let i: int = (label_of(Command::Login).len() + " failed: HTTP "@.len()) as int;
        assert(m.subrange(i, i + 3) =~= decimal_of(code as nat));
    }
}

} // verus!
