//! The control channel used to trigger a report on an already running
//! daemon: one request then one response per connection, each a JSON object
//! on a line of its own.
//!
//! This module holds the protocol's decisions and framing; turning the JSON
//! text of a line into a `Request` or `Response` and back is left to the
//! caller.
use vstd::prelude::*;

use crate::text::{is_white_space, trim_end, trim_end_spec};

verus! {

/// A request sent over the control socket. Only the `"report"` command is
/// handled; `resource` names what the report is generated from.
#[derive(Debug, PartialEq, Eq)]
pub struct Request {
    pub command: String,
    pub resource: String,
}

/// The daemon's answer to a request.
#[derive(Debug, PartialEq, Eq)]
pub enum Response {
    Success,
    Error { message: String },
}

/// What the daemon does with a request: run the report for a resource, or
/// answer at once.
#[derive(Debug, PartialEq, Eq)]
pub enum ControlAction {
    RunReport(String),
    Reply(Response),
}

/// A request as text.
pub struct RequestView {
    pub command: Seq<char>,
    pub resource: Seq<char>,
}

/// A response as text.
pub enum ResponseView {
    Success,
    Error(Seq<char>),
}

/// A control action as text.
pub enum ControlActionView {
    RunReport(Seq<char>),
    Reply(ResponseView),
}

impl View for Request {
    type V = RequestView;

    open spec fn view(&self) -> RequestView {
        RequestView { command: self.command@, resource: self.resource@ }
    }
}

impl View for Response {
    type V = ResponseView;

    open spec fn view(&self) -> ResponseView {
        match self {
            Response::Success => ResponseView::Success,
            Response::Error { message } => ResponseView::Error(message@),
        }
    }
}

impl View for ControlAction {
    type V = ControlActionView;

    open spec fn view(&self) -> ControlActionView {
        match self {
            ControlAction::RunReport(resource) => ControlActionView::RunReport(resource@),
            ControlAction::Reply(response) => ControlActionView::Reply(response@),
        }
    }
}

/// The one command the daemon handles.
pub open spec fn report_command() -> Seq<char> {
    "report"@
}

/// The error text for a request whose command is not handled.
pub open spec fn unknown_command_message(command: Seq<char>) -> Seq<char> {
    "unknown command '"@ + command + "'"@
}

/// The action the daemon takes on `req`.
pub open spec fn action_for(req: RequestView) -> ControlActionView {
    if req.command == report_command() {
        ControlActionView::RunReport(req.resource)
    } else {
        ControlActionView::Reply(ResponseView::Error(unknown_command_message(req.command)))
    }
}

/// An outcome as text.
pub open spec fn outcome_view(outcome: Result<(), String>) -> Result<(), Seq<char>> {
    match outcome {
        Ok(()) => Ok(()),
        Err(message) => Err(message@),
    }
}

/// The response for a report run that ended with `outcome` (`Err` holding the
/// text of the failure).
pub open spec fn response_for_outcome(outcome: Result<(), Seq<char>>) -> ResponseView {
    match outcome {
        Ok(()) => ResponseView::Success,
        Err(message) => ResponseView::Error(message),
    }
}

/// The request that triggers a report for `resource`.
pub open spec fn report_request_for(resource: Seq<char>) -> RequestView {
    RequestView { command: report_command(), resource }
}

/// The error text under which the triggering side passes on a daemon error.
pub open spec fn daemon_error_message(message: Seq<char>) -> Seq<char> {
    "daemon reported an error: "@ + message
}

/// What the triggering side makes of a response.
pub open spec fn outcome_of_response(resp: ResponseView) -> Result<(), Seq<char>> {
    match resp {
        ResponseView::Success => Ok(()),
        ResponseView::Error(message) => Err(daemon_error_message(message)),
    }
}

/// A payload as it is written to the socket: followed by a newline.
pub open spec fn frame_of(payload: Seq<char>) -> Seq<char> {
    payload + "\n"@
}

/// Decides what the daemon does with `req`: run the report for a `"report"`
/// request, refuse any other command with an error response.
pub fn dispatch_request(req: Request) -> (res: ControlAction)
    ensures
        res@ == action_for(req@),
{
    let report = String::from_str("report");
    if req.command == report {
        ControlAction::RunReport(req.resource)
    } else {
        let mut message = String::from_str("unknown command '");
        message.append(req.command.as_str());
        message.append("'");
        ControlAction::Reply(Response::Error { message })
    }
}

/// The response sent back once the report run ended with `outcome`.
pub fn report_response(outcome: Result<(), String>) -> (res: Response)
    ensures
        res@ == response_for_outcome(outcome_view(outcome)),
{
    match outcome {
        Ok(()) => Response::Success,
        Err(message) => Response::Error { message },
    }
}

/// The request that triggers a report for `resource` on a running daemon.
pub fn report_request(resource: &str) -> (res: Request)
    ensures
        res@ == report_request_for(resource@),
{
    Request { command: String::from_str("report"), resource: String::from_str(resource) }
}

/// What the triggering side returns for the daemon's response: success, or the
/// daemon's error message passed on.
pub fn interpret_response(resp: Response) -> (res: Result<(), String>)
    ensures
        outcome_view(res) == outcome_of_response(resp@),
{
    match resp {
        Response::Success => Ok(()),
        Response::Error { message } => {
            let mut m = String::from_str("daemon reported an error: ");
            m.append(message.as_str());
            Err(m)
        },
    }
}

/// Terminates an encoded message with the newline that ends it on the socket.
pub fn frame_message(payload: String) -> (res: String)
    ensures
        res@ == frame_of(payload@),
{
    let mut framed = payload;
    framed.append("\n");
    framed
}

/// The message carried by a line read from the socket: the line without its
/// trailing white space (the newline among it).
pub fn unframe_line(line: &str) -> (res: &str)
    ensures
        res@ == trim_end_spec(line@),
{
    trim_end(line)
}

/// A report request, as the triggering side builds it, is run as a report for
/// the same resource by the daemon.
pub proof fn law_report_request_runs_report(resource: Seq<char>)
    ensures
        action_for(report_request_for(resource)) == ControlActionView::RunReport(resource),
{
}

/// A report run that succeeded reaches the triggering side as success; one
/// that failed reaches it as the failure's text behind the daemon-error prefix.
pub proof fn law_report_outcome_reaches_trigger(outcome: Result<(), Seq<char>>)
    ensures
        outcome_of_response(response_for_outcome(outcome)) == match outcome {
            Ok(()) => Ok::<(), Seq<char>>(()),
            Err(m) => Err(daemon_error_message(m)),
        },
{
}

/// Any command but `"report"` is answered with an error that names it.
pub proof fn law_unknown_command_refused(req: RequestView)
    requires
        req.command != report_command(),
    ensures
        action_for(req) == ControlActionView::Reply(
            ResponseView::Error(unknown_command_message(req.command)),
        ),
{
}

/// The daemon runs a report exactly for the command `report`, and for the
/// resource the request names; the trigger side always sends that command.
pub proof fn law_only_report_runs(req: RequestView, resource: Seq<char>)
    ensures
        action_for(req) is RunReport <==> req.command == seq!['r', 'e', 'p', 'o', 'r', 't'],
        action_for(req) matches ControlActionView::RunReport(r) ==> r == req.resource,
        report_request_for(resource).command == seq!['r', 'e', 'p', 'o', 'r', 't'],
        report_request_for(resource).resource == resource,
{
    reveal_strlit("report");
    assert("report"@ =~= seq!['r', 'e', 'p', 'o', 'r', 't']);
}

/// An error response carries the refused command, and the trigger side passes
/// the daemon's error message on at the end of its own; success stays success.
pub proof fn law_error_messages_carry_their_cause(command: Seq<char>, message: Seq<char>)
    ensures
        ({
            let m = unknown_command_message(command);
            m.len() > command.len() && exists|k: int|
                0 <= k && k + command.len() <= m.len() && #[trigger] m.subrange(k, k + command.len())
                    == command
        }),
        outcome_of_response(ResponseView::Success) is Ok,
        outcome_of_response(ResponseView::Error(message)) matches Err(e) && e.len() > message.len()
            && e.subrange(e.len() - message.len(), e.len() as int) == message,
        response_for_outcome(Ok(())) == ResponseView::Success,
        response_for_outcome(Err(message)) == ResponseView::Error(message),
{
    reveal_strlit("unknown command '");
    reveal_strlit("'");
    reveal_strlit("daemon reported an error: ");
    let m = unknown_command_message(command);
    let p = "unknown command '"@;
    assert(m.subrange(p.len() as int, (p.len() + command.len()) as int) =~= command);
    let e = daemon_error_message(message);
    assert(e.subrange(e.len() - message.len(), e.len() as int) =~= message);
}

/// A framed payload is the payload followed by exactly one newline, whatever
/// the payload.
pub proof fn law_frame_appends_one_newline(payload: Seq<char>)
    ensures
        frame_of(payload).len() == payload.len() + 1,
        frame_of(payload).last() == '\n',
        frame_of(payload).drop_last() == payload,
{
    reveal_strlit("\n");
    assert(frame_of(payload).drop_last() =~= payload);
}

/// Reading back a framed payload gives the payload, for a payload that does
/// not end in white space (an encoded JSON object ends in `}`).
pub proof fn law_unframe_undoes_frame(payload: Seq<char>)
    requires
        payload.len() == 0 || !is_white_space(payload.last()),
    ensures
        trim_end_spec(frame_of(payload)) == payload,
{
    reveal_strlit("\n");
    let framed = frame_of(payload);
    assert(framed.len() == payload.len() + 1);
    assert(framed.last() == '\n');
    assert(framed.drop_last() =~= payload);
    assert(is_white_space(framed.last()));
    assert(trim_end_spec(framed) == trim_end_spec(payload));
    assert(trim_end_spec(payload) == payload);
}

} // verus!
