use gif_that_for_you::mcp::{
    dispatch_tool, handle_message, start_recording_reply, stop_recording_reply, tool_result,
    tools_schema, Json, JsonNumber, McpStep, Member, StartOutcome,
};

fn s(t: &str) -> String {
    t.to_string()
}

fn render(j: &Json) -> String {
    match j {
        Json::Null => s("null"),
        Json::Bool(b) => b.to_string(),
        Json::Number(JsonNumber::PosInt(n)) => n.to_string(),
        Json::Number(JsonNumber::NegInt(n)) => n.to_string(),
        Json::Number(JsonNumber::Float(bits)) => f64::from_bits(*bits).to_string(),
        Json::Str(t) => format!("{:?}", t),
        Json::Array(items) => {
            let parts: Vec<String> = items.iter().map(render).collect();
            format!("[{}]", parts.join(","))
        }
        Json::Object(ms) => {
            let parts: Vec<String> =
                ms.iter().map(|m| format!("{:?}:{}", m.key, render(&m.value))).collect();
            format!("{{{}}}", parts.join(","))
        }
    }
}

fn obj(members: Vec<(&str, Json)>) -> Json {
    Json::Object(members.into_iter().map(|(k, v)| Member { key: s(k), value: v }).collect())
}

fn text(t: &str) -> Json {
    Json::Str(s(t))
}

fn num(n: u64) -> Json {
    Json::Number(JsonNumber::PosInt(n))
}

fn reply_of(step: McpStep) -> String {
    match step {
        McpStep::Reply(r) => render(&r),
        _ => panic!("expected a reply"),
    }
}

fn call(id: Json, params: Json) -> Json {
    obj(vec![("jsonrpc", text("2.0")), ("id", id), ("method", text("tools/call")), ("params", params)])
}

#[test]
fn initialize_is_answered_with_server_info() {
    let msg = obj(vec![("jsonrpc", text("2.0")), ("id", num(1)), ("method", text("initialize"))]);
    assert_eq!(
        reply_of(handle_message(msg)),
        r#"{"jsonrpc":"2.0","id":1,"result":{"protocolVersion":"2024-11-05","capabilities":{"tools":{}},"serverInfo":{"name":"gif-that-for-you","version":"0.1.0"}}}"#
    );
}

#[test]
fn ping_is_answered_with_an_empty_result() {
    let msg = obj(vec![("method", text("ping")), ("id", text("abc"))]);
    assert_eq!(reply_of(handle_message(msg)), r#"{"jsonrpc":"2.0","id":"abc","result":{}}"#);
}

#[test]
fn tools_list_names_both_tools() {
    let msg = obj(vec![("method", text("tools/list")), ("id", num(2))]);
    let expected = format!(r#"{{"jsonrpc":"2.0","id":2,"result":{{"tools":{}}}}}"#, render(&tools_schema()));
    assert_eq!(reply_of(handle_message(msg)), expected);
}

#[test]
fn tools_schema_text() {
    assert_eq!(
        render(&tools_schema()),
        [
            r#"[{"name":"start_recording","description":"Start recording the screen as a GIF. A system dialog will appear for the user to select which screen or window to capture. Blocks until the user confirms and recording begins.","inputSchema":{"type":"object","properties":{},"required":[]}},"#,
            r#"{"name":"stop_recording","description":"Stop the current screen recording, convert it to an animated GIF, and return the path to the saved file. Blocks until conversion is complete.","inputSchema":{"type":"object","properties":{"fps":{"type":"integer","description":"Output GIF frame rate (1–30). Defaults to 15.","minimum":1,"maximum":30}},"required":[]}}]"#,
        ]
        .join("")
    );
}

#[test]
fn notifications_get_no_reply() {
    let msg = obj(vec![("jsonrpc", text("2.0")), ("method", text("notifications/initialized"))]);
    assert!(matches!(handle_message(msg), McpStep::Silent));
}

#[test]
fn messages_without_a_string_method_get_no_reply() {
    assert!(matches!(handle_message(obj(vec![("id", num(1))])), McpStep::Silent));
    assert!(matches!(handle_message(obj(vec![("id", num(1)), ("method", num(3))])), McpStep::Silent));
    assert!(matches!(handle_message(Json::Array(vec![])), McpStep::Silent));
}

#[test]
fn unknown_method_is_an_error() {
    let msg = obj(vec![("method", text("resources/list")), ("id", num(7))]);
    assert_eq!(
        reply_of(handle_message(msg)),
        r#"{"jsonrpc":"2.0","id":7,"error":{"code":-32601,"message":"Method not found"}}"#
    );
}

#[test]
fn null_id_is_echoed() {
    let msg = obj(vec![("method", text("ping")), ("id", Json::Null)]);
    assert_eq!(reply_of(handle_message(msg)), r#"{"jsonrpc":"2.0","id":null,"result":{}}"#);
}

#[test]
fn start_recording_call() {
    let msg = call(num(3), obj(vec![("name", text("start_recording"))]));
    match handle_message(msg) {
        McpStep::StartRecording { id } => assert_eq!(render(&id), "3"),
        _ => panic!("expected a start"),
    }
}

fn stop_fps(args: Option<Json>) -> u32 {
    let mut params = vec![("name", text("stop_recording"))];
    if let Some(a) = args {
        params.push(("arguments", a));
    }
    match handle_message(call(num(4), obj(params))) {
        McpStep::StopRecording { id, fps } => {
            assert_eq!(render(&id), "4");
            fps
        }
        _ => panic!("expected a stop"),
    }
}

#[test]
fn stop_recording_frame_rate_is_clamped() {
    assert_eq!(stop_fps(None), 15);
    assert_eq!(stop_fps(Some(obj(vec![]))), 15);
    assert_eq!(stop_fps(Some(obj(vec![("fps", num(12))]))), 12);
    assert_eq!(stop_fps(Some(obj(vec![("fps", num(0))]))), 1);
    assert_eq!(stop_fps(Some(obj(vec![("fps", num(100))]))), 30);
    assert_eq!(stop_fps(Some(obj(vec![("fps", Json::Number(JsonNumber::NegInt(-5)))]))), 15);
    assert_eq!(stop_fps(Some(obj(vec![("fps", Json::Number(JsonNumber::Float(20.0f64.to_bits())))]))), 15);
    assert_eq!(stop_fps(Some(obj(vec![("fps", text("20"))]))), 15);
    assert_eq!(stop_fps(Some(text("fps=20"))), 15);
}

#[test]
fn unknown_tool_is_an_error() {
    let msg = call(num(5), obj(vec![("name", text("pause_recording"))]));
    assert_eq!(
        reply_of(handle_message(msg)),
        r#"{"jsonrpc":"2.0","id":5,"error":{"code":-32601,"message":"Unknown tool: pause_recording"}}"#
    );
}

#[test]
fn tool_call_without_params_or_name_gets_no_reply() {
    let msg = obj(vec![("method", text("tools/call")), ("id", num(6))]);
    assert!(matches!(handle_message(msg), McpStep::Silent));
    assert!(matches!(handle_message(call(num(6), obj(vec![]))), McpStep::Silent));
    assert!(matches!(handle_message(call(num(6), obj(vec![("name", num(1))]))), McpStep::Silent));
}

#[test]
fn dispatch_tool_plans_the_call() {
    let args = obj(vec![("fps", num(24))]);
    match dispatch_tool(&s("stop_recording"), Some(&args), num(8)) {
        McpStep::StopRecording { fps, .. } => assert_eq!(fps, 24),
        _ => panic!("expected a stop"),
    }
    assert!(matches!(dispatch_tool(&s("start_recording"), None, num(8)), McpStep::StartRecording { .. }));
}

#[test]
fn tool_result_shape() {
    assert_eq!(
        render(&tool_result(num(9), "done", false)),
        r#"{"jsonrpc":"2.0","id":9,"result":{"content":[{"type":"text","text":"done"}],"isError":false}}"#
    );
}

#[test]
fn start_recording_replies() {
    assert_eq!(
        render(&start_recording_reply(num(1), StartOutcome::Started)),
        r#"{"jsonrpc":"2.0","id":1,"result":{"content":[{"type":"text","text":"Recording started. A system dialog was shown for the user to select which screen or window to share. Call stop_recording when done."}],"isError":false}}"#
    );
    assert_eq!(
        render(&start_recording_reply(num(1), StartOutcome::Failed(s("Portal: user cancelled at CreateSession (1)")))),
        r#"{"jsonrpc":"2.0","id":1,"result":{"content":[{"type":"text","text":"Portal: user cancelled at CreateSession (1)"}],"isError":true}}"#
    );
    assert_eq!(
        render(&start_recording_reply(num(1), StartOutcome::ChannelClosed)),
        r#"{"jsonrpc":"2.0","id":1,"result":{"content":[{"type":"text","text":"Internal error: result channel closed"}],"isError":true}}"#
    );
}

#[test]
fn stop_recording_replies() {
    assert_eq!(
        render(&stop_recording_reply(num(2), &Ok(s("/home/ann/Pictures/recording-1.gif")))),
        r#"{"jsonrpc":"2.0","id":2,"result":{"content":[{"type":"text","text":"GIF saved to /home/ann/Pictures/recording-1.gif"}],"isError":false}}"#
    );
    assert_eq!(
        render(&stop_recording_reply(num(2), &Err(s("Not recording")))),
        r#"{"jsonrpc":"2.0","id":2,"result":{"content":[{"type":"text","text":"Not recording"}],"isError":true}}"#
    );
}
