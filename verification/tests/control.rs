use matrix_relay::control::{
    dispatch_request, frame_message, interpret_response, report_request, report_response,
    unframe_line, ControlAction, Request, Response,
};

#[test]
fn dispatch_runs_report_requests() {
    let req = Request { command: "report".to_string(), resource: "kid://report/daily".to_string() };
    assert_eq!(dispatch_request(req), ControlAction::RunReport("kid://report/daily".to_string()));
}

#[test]
fn dispatch_refuses_unknown_commands() {
    let req = Request { command: "Report".to_string(), resource: "x".to_string() };
    assert_eq!(
        dispatch_request(req),
        ControlAction::Reply(Response::Error { message: "unknown command 'Report'".to_string() })
    );
    let req = Request { command: String::new(), resource: String::new() };
    assert_eq!(
        dispatch_request(req),
        ControlAction::Reply(Response::Error { message: "unknown command ''".to_string() })
    );
}

#[test]
fn report_request_is_dispatched_as_report() {
    let req = report_request("kid://weekly_report");
    assert_eq!(req.command, "report");
    assert_eq!(req.resource, "kid://weekly_report");
    assert_eq!(dispatch_request(req), ControlAction::RunReport("kid://weekly_report".to_string()));
}

#[test]
fn report_outcome_becomes_response() {
    assert_eq!(report_response(Ok(())), Response::Success);
    assert_eq!(
        report_response(Err("no such resource".to_string())),
        Response::Error { message: "no such resource".to_string() }
    );
}

#[test]
fn response_reaches_trigger() {
    assert_eq!(interpret_response(Response::Success), Ok(()));
    assert_eq!(
        interpret_response(Response::Error { message: "boom".to_string() }),
        Err("daemon reported an error: boom".to_string())
    );
    assert_eq!(
        interpret_response(report_response(Err("x".to_string()))),
        Err("daemon reported an error: x".to_string())
    );
}

#[test]
fn framing_round_trip() {
    let payload = "{\"status\":\"ok\"}".to_string();
    let framed = frame_message(payload.clone());
    assert_eq!(framed, "{\"status\":\"ok\"}\n");
    assert_eq!(unframe_line(&framed), payload);
    assert_eq!(unframe_line("{}\r\n"), "{}");
    assert_eq!(unframe_line("{} \t"), "{}");
}
