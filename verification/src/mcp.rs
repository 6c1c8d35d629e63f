//! The Model Context Protocol server: JSON-RPC requests in, replies out, with
//! the two recording tools in between.
use vstd::prelude::*;

use crate::text::{same_text, string_of};

verus! {

// ---------------------------------------------------------------------------
// JSON values
// ---------------------------------------------------------------------------
/// A JSON number, as serde_json keeps it.
#[derive(Clone, Copy, Debug, PartialEq, Eq)]
pub enum JsonNumber {
    /// A non-negative integer.
    PosInt(u64),
    /// A negative integer.
    NegInt(i64),
    /// A floating-point number, by the bits of its IEEE 754 encoding.
    Float(u64),
}

/// A JSON value.
pub enum Json {
    Null,
    Bool(bool),
    Number(JsonNumber),
    Str(String),
    Array(Vec<Json>),
    /// An object's members, in order; a lookup by key reads the first
    /// member with that key (parsed objects have each key once).
    Object(Vec<Member>),
}

/// A member of a JSON object.
pub struct Member {
    pub key: String,
    pub value: Json,
}

/// A JSON value, abstractly.
pub enum JsonView {
    Null,
    Bool(bool),
    Number(JsonNumber),
    Str(Seq<char>),
    Array(Seq<JsonView>),
    Object(Seq<(Seq<char>, JsonView)>),
}

/// The abstract value of a JSON value.
pub open spec fn json_view(j: Json) -> JsonView
    decreases j,
{
    match j {
        Json::Null => JsonView::Null,
        Json::Bool(b) => JsonView::Bool(b),
        Json::Number(n) => JsonView::Number(n),
        Json::Str(s) => JsonView::Str(s@),
        Json::Array(items) => JsonView::Array(
            Seq::new(
                items@.len(),
                |i: int|
                    if 0 <= i < items@.len() {
                        json_view(items@[i])
                    } else {
                        JsonView::Null
                    },
            ),
        ),
        Json::Object(ms) => JsonView::Object(
            Seq::new(
                ms@.len(),
                |i: int|
                    if 0 <= i < ms@.len() {
                        (ms@[i].key@, json_view(ms@[i].value))
                    } else {
                        (Seq::empty(), JsonView::Null)
                    },
            ),
        ),
    }
}

/// The abstract values of a list of values.
pub open spec fn items_view(items: Seq<Json>) -> Seq<JsonView> {
    Seq::new(items.len(), |i: int| json_view(items[i]))
}

/// The abstract members of a list of members.
pub open spec fn members_view(ms: Seq<Member>) -> Seq<(Seq<char>, JsonView)> {
    Seq::new(ms.len(), |i: int| (ms[i].key@, json_view(ms[i].value)))
}

proof fn lemma_array_view(items: Vec<Json>)
    ensures
        json_view(Json::Array(items)) == JsonView::Array(items_view(items@)),
{
    if let JsonView::Array(s) = json_view(Json::Array(items)) {
        assert(s =~= items_view(items@));
    }
}

proof fn lemma_object_view(ms: Vec<Member>)
    ensures
        json_view(Json::Object(ms)) == JsonView::Object(members_view(ms@)),
{
    if let JsonView::Object(s) = json_view(Json::Object(ms)) {
        assert(s =~= members_view(ms@));
    }
}

/// The value of the first member named `key`.
pub open spec fn lookup(ms: Seq<(Seq<char>, JsonView)>, key: Seq<char>) -> Option<JsonView>
    decreases ms.len(),
{
    if ms.len() == 0 {
        None
    } else if ms[0].0 == key {
        Some(ms[0].1)
    } else {
        lookup(ms.drop_first(), key)
    }
}

/// `Value::get` with a key: the member of an object, `None` for anything else.
pub open spec fn get(v: JsonView, key: Seq<char>) -> Option<JsonView> {
    match v {
        JsonView::Object(ms) => lookup(ms, key),
        _ => None,
    }
}

/// `Value::as_str`.
pub open spec fn as_str(v: JsonView) -> Option<Seq<char>> {
    match v {
        JsonView::Str(s) => Some(s),
        _ => None,
    }
}

/// `Value::as_u64`: only non-negative integers.
pub open spec fn as_u64(v: JsonView) -> Option<u64> {
    match v {
        JsonView::Number(JsonNumber::PosInt(n)) => Some(n),
        _ => None,
    }
}

/// The index of the first member named `key`.
fn find_member(ms: &Vec<Member>, key: &str) -> (r: Option<usize>)
    ensures
        match r {
            Some(i) => i < ms@.len() && lookup(members_view(ms@), key@) == Some(
                json_view(ms@[i as int].value),
            ),
            None => lookup(members_view(ms@), key@) is None,
        },
{
    let ghost all = members_view(ms@);
    let mut i: usize = 0;
    assert(all.skip(0) =~= all);
    while i < ms.len()
        invariant
            i <= ms@.len(),
            all == members_view(ms@),
            lookup(all, key@) == lookup(all.skip(i as int), key@),
        decreases ms.len() - i,
    {
        let ghost rest = all.skip(i as int);
        assert(rest[0] == (ms@[i as int].key@, json_view(ms@[i as int].value)));
        if same_text(&ms[i].key, key) {
            return Some(i);
        }
        assert(rest.drop_first() =~= all.skip(i + 1));
        i = i + 1;
    }
    assert(all.skip(i as int) =~= Seq::<(Seq<char>, JsonView)>::empty());
    None
}

/// The member named `key` of an object (`Value::get`).
pub fn get_member<'a>(v: &'a Json, key: &str) -> (r: Option<&'a Json>)
    ensures
        match r {
            Some(m) => get(json_view(*v), key@) == Some(json_view(*m)),
            None => get(json_view(*v), key@) is None,
        },
{
    match v {
        Json::Object(ms) => {
            proof {
                lemma_object_view(*ms);
            }
            match find_member(ms, key) {
                Some(i) => Some(&ms[i].value),
                None => None,
            }
        },
        _ => None,
    }
}

// ---------------------------------------------------------------------------
// Building values
// ---------------------------------------------------------------------------
/// A string value holding `t`.
pub fn json_text(t: &str) -> (r: Json)
    ensures
        json_view(r) == JsonView::Str(t@),
{
    Json::Str(string_of(t))
}

/// Adds the member `key: value`.
pub fn put(ms: &mut Vec<Member>, key: &str, value: Json)
    ensures
        members_view(final(ms)@) == members_view(old(ms)@).push((key@, json_view(value))),
{
    let ghost v = json_view(value);
    ms.push(Member { key: string_of(key), value });
    assert(members_view(ms@) =~= members_view(old(ms)@).push((key@, v)));
}

/// Adds an element to an array.
pub fn push_item(items: &mut Vec<Json>, value: Json)
    ensures
        items_view(final(items)@) == items_view(old(items)@).push(json_view(value)),
{
    let ghost v = json_view(value);
    items.push(value);
    assert(items_view(items@) =~= items_view(old(items)@).push(v));
}

/// An object with these members.
pub fn json_object(ms: Vec<Member>) -> (r: Json)
    ensures
        json_view(r) == JsonView::Object(members_view(ms@)),
{
    proof {
        lemma_object_view(ms);
    }
    Json::Object(ms)
}

/// An array with these elements.
pub fn json_array(items: Vec<Json>) -> (r: Json)
    ensures
        json_view(r) == JsonView::Array(items_view(items@)),
{
    proof {
        lemma_array_view(items);
    }
    Json::Array(items)
}

// ---------------------------------------------------------------------------
// Replies
// ---------------------------------------------------------------------------
/// A successful JSON-RPC reply to request `id`.
pub open spec fn reply_view(id: JsonView, result: JsonView) -> JsonView {
    JsonView::Object(seq![("jsonrpc"@, JsonView::Str("2.0"@)), ("id"@, id), ("result"@, result)])
}

/// A JSON-RPC error reply to request `id`.
pub open spec fn error_reply_view(id: JsonView, code: i64, message: Seq<char>) -> JsonView {
    JsonView::Object(
        seq![
            ("jsonrpc"@, JsonView::Str("2.0"@)),
            ("id"@, id),
            (
                "error"@,
                JsonView::Object(
                    seq![
                        ("code"@, JsonView::Number(JsonNumber::NegInt(code))),
                        ("message"@, JsonView::Str(message)),
                    ],
                ),
            ),
        ],
    )
}

/// The reply carrying a tool's text output, flagged as an error or not.
pub open spec fn tool_result_view(id: JsonView, text: Seq<char>, is_error: bool) -> JsonView {
    reply_view(
        id,
        JsonView::Object(
            seq![
                (
                    "content"@,
                    JsonView::Array(
                        seq![
                            JsonView::Object(
                                seq![
                                    ("type"@, JsonView::Str("text"@)),
                                    ("text"@, JsonView::Str(text)),
                                ],
                            ),
                        ],
                    ),
                ),
                ("isError"@, JsonView::Bool(is_error)),
            ],
        ),
    )
}

fn reply(id: Json, result: Json) -> (r: Json)
    ensures
        json_view(r) == reply_view(json_view(id), json_view(result)),
{
    let ghost (i, res) = (json_view(id), json_view(result));
    let mut top: Vec<Member> = Vec::new();
    put(&mut top, "jsonrpc", json_text("2.0"));
    put(&mut top, "id", id);
    put(&mut top, "result", result);
    assert(members_view(top@) =~= seq![("jsonrpc"@, JsonView::Str("2.0"@)), ("id"@, i), ("result"@, res)]);
    json_object(top)
}

fn error_reply(id: Json, code: i64, message: String) -> (r: Json)
    ensures
        json_view(r) == error_reply_view(json_view(id), code, message@),
{
    let ghost i = json_view(id);
    let mut err: Vec<Member> = Vec::new();
    put(&mut err, "code", Json::Number(JsonNumber::NegInt(code)));
    put(&mut err, "message", Json::Str(message));
    let ghost e = members_view(err@);
    assert(e =~= seq![
        ("code"@, JsonView::Number(JsonNumber::NegInt(code))),
        ("message"@, JsonView::Str(message@)),
    ]);
    let mut top: Vec<Member> = Vec::new();
    put(&mut top, "jsonrpc", json_text("2.0"));
    put(&mut top, "id", id);
    put(&mut top, "error", json_object(err));
    assert(members_view(top@) =~= seq![
        ("jsonrpc"@, JsonView::Str("2.0"@)),
        ("id"@, i),
        ("error"@, JsonView::Object(e)),
    ]);
    json_object(top)
}

/// The reply carrying a tool's text output.
pub fn tool_result(id: Json, text: &str, is_error: bool) -> (r: Json)
    ensures
        json_view(r) == tool_result_view(json_view(id), text@, is_error),
{
    let mut item: Vec<Member> = Vec::new();
    put(&mut item, "type", json_text("text"));
    put(&mut item, "text", json_text(text));
    let ghost iv = members_view(item@);
    assert(iv =~= seq![("type"@, JsonView::Str("text"@)), ("text"@, JsonView::Str(text@))]);
    let mut content: Vec<Json> = Vec::new();
    push_item(&mut content, json_object(item));
    let ghost cv = items_view(content@);
    assert(cv =~= seq![JsonView::Object(iv)]);
    let mut result: Vec<Member> = Vec::new();
    put(&mut result, "content", json_array(content));
    put(&mut result, "isError", Json::Bool(is_error));
    let ghost rv = members_view(result@);
    assert(rv =~= seq![("content"@, JsonView::Array(cv)), ("isError"@, JsonView::Bool(is_error))]);
    reply(id, json_object(result))
}

// ---------------------------------------------------------------------------
// The tools
// ---------------------------------------------------------------------------
/// The description of the `start_recording` tool.
pub open spec fn start_description() -> Seq<char> {
    "Start recording the screen as a GIF. A system dialog \
     will appear for the user to select which screen or window \
     to capture. Blocks until the user confirms and recording begins."@
}

/// The description of the `stop_recording` tool.
pub open spec fn stop_description() -> Seq<char> {
    "Stop the current screen recording, convert it to an \
     animated GIF, and return the path to the saved file. \
     Blocks until conversion is complete."@
}

/// The description of the `fps` argument.
pub open spec fn fps_description() -> Seq<char> {
    "Output GIF frame rate (1–30). Defaults to 15."@
}

/// An input schema with these properties, none required.
pub open spec fn input_schema_view(properties: Seq<(Seq<char>, JsonView)>) -> JsonView {
    JsonView::Object(
        seq![
            ("type"@, JsonView::Str("object"@)),
            ("properties"@, JsonView::Object(properties)),
            ("required"@, JsonView::Array(Seq::empty())),
        ],
    )
}

/// The tools the server offers: `start_recording`, without arguments, and
/// `stop_recording`, with an optional integer `fps` from 1 to 30.
pub open spec fn tools_schema_view() -> JsonView {
    JsonView::Array(
        seq![
            JsonView::Object(
                seq![
                    ("name"@, JsonView::Str("start_recording"@)),
                    ("description"@, JsonView::Str(start_description())),
                    ("inputSchema"@, input_schema_view(Seq::empty())),
                ],
            ),
            JsonView::Object(
                seq![
                    ("name"@, JsonView::Str("stop_recording"@)),
                    ("description"@, JsonView::Str(stop_description())),
                    (
                        "inputSchema"@,
                        input_schema_view(
                            seq![
                                (
                                    "fps"@,
                                    JsonView::Object(
                                        seq![
                                            ("type"@, JsonView::Str("integer"@)),
                                            ("description"@, JsonView::Str(fps_description())),
                                            (
                                                "minimum"@,
                                                JsonView::Number(JsonNumber::PosInt(1)),
                                            ),
                                            (
                                                "maximum"@,
                                                JsonView::Number(JsonNumber::PosInt(30)),
                                            ),
                                        ],
                                    ),
                                ),
                            ],
                        ),
                    ),
                ],
            ),
        ],
    )
}

fn input_schema(properties: Vec<Member>) -> (r: Json)
    ensures
        json_view(r) == input_schema_view(members_view(properties@)),
{
    let ghost p = members_view(properties@);
    let mut s: Vec<Member> = Vec::new();
    put(&mut s, "type", json_text("object"));
    put(&mut s, "properties", json_object(properties));
    let none: Vec<Json> = Vec::new();
    assert(items_view(none@) =~= Seq::<JsonView>::empty());
    put(&mut s, "required", json_array(none));
    assert(members_view(s@) =~= seq![
        ("type"@, JsonView::Str("object"@)),
        ("properties"@, JsonView::Object(p)),
        ("required"@, JsonView::Array(Seq::empty())),
    ]);
    json_object(s)
}

/// The list of tools, with their input schemas.
pub fn tools_schema() -> (r: Json)
    ensures
        json_view(r) == tools_schema_view(),
{
    let mut start: Vec<Member> = Vec::new();
    put(&mut start, "name", json_text("start_recording"));
    put(
        &mut start,
        "description",
        json_text(
            "Start recording the screen as a GIF. A system dialog \
             will appear for the user to select which screen or window \
             to capture. Blocks until the user confirms and recording begins.",
        ),
    );
    let no_properties: Vec<Member> = Vec::new();
    assert(members_view(no_properties@) =~= Seq::<(Seq<char>, JsonView)>::empty());
    put(&mut start, "inputSchema", input_schema(no_properties));
    let ghost sv = members_view(start@);
    assert(sv =~= seq![
        ("name"@, JsonView::Str("start_recording"@)),
        ("description"@, JsonView::Str(start_description())),
        ("inputSchema"@, input_schema_view(Seq::empty())),
    ]);
    let mut fps: Vec<Member> = Vec::new();
    put(&mut fps, "type", json_text("integer"));
    put(&mut fps, "description", json_text("Output GIF frame rate (1–30). Defaults to 15."));
    put(&mut fps, "minimum", Json::Number(JsonNumber::PosInt(1)));
    put(&mut fps, "maximum", Json::Number(JsonNumber::PosInt(30)));
    let ghost fv = members_view(fps@);
    assert(fv =~= seq![
        ("type"@, JsonView::Str("integer"@)),
        ("description"@, JsonView::Str(fps_description())),
        ("minimum"@, JsonView::Number(JsonNumber::PosInt(1))),
        ("maximum"@, JsonView::Number(JsonNumber::PosInt(30))),
    ]);
    let mut props: Vec<Member> = Vec::new();
    put(&mut props, "fps", json_object(fps));
    let ghost pv = members_view(props@);
    assert(pv =~= seq![("fps"@, JsonView::Object(fv))]);
    let mut stop: Vec<Member> = Vec::new();
    put(&mut stop, "name", json_text("stop_recording"));
    put(
        &mut stop,
        "description",
        json_text(
            "Stop the current screen recording, convert it to an \
             animated GIF, and return the path to the saved file. \
             Blocks until conversion is complete.",
        ),
    );
    put(&mut stop, "inputSchema", input_schema(props));
    let ghost tv = members_view(stop@);
    assert(tv =~= seq![
        ("name"@, JsonView::Str("stop_recording"@)),
        ("description"@, JsonView::Str(stop_description())),
        ("inputSchema"@, input_schema_view(pv)),
    ]);
    let mut tools: Vec<Json> = Vec::new();
    push_item(&mut tools, json_object(start));
    push_item(&mut tools, json_object(stop));
    assert(items_view(tools@) =~= seq![JsonView::Object(sv), JsonView::Object(tv)]);
    json_array(tools)
}

// ---------------------------------------------------------------------------
// Dispatch
// ---------------------------------------------------------------------------
/// What the server does with a message.
pub enum McpStep {
    /// Nothing: a notification, or a message it cannot read.
    Silent,
    /// Send this reply.
    Reply(Json),
    /// Start a recording, then answer request `id` with `start_recording_reply`.
    StartRecording { id: Json },
    /// Stop the recording at `fps`, then answer request `id` with `stop_recording_reply`.
    StopRecording { id: Json, fps: u32 },
}

/// What the server does with a message, abstractly.
pub enum StepView {
    Silent,
    Reply(JsonView),
    StartRecording(JsonView),
    StopRecording(JsonView, u32),
}

/// The abstract step.
pub open spec fn step_view(s: McpStep) -> StepView {
    match s {
        McpStep::Silent => StepView::Silent,
        McpStep::Reply(r) => StepView::Reply(json_view(r)),
        McpStep::StartRecording { id } => StepView::StartRecording(json_view(id)),
        McpStep::StopRecording { id, fps } => StepView::StopRecording(json_view(id), fps),
    }
}

/// The frame rate a `stop_recording` call asks for: its integer `fps`
/// argument brought into 1..=30, or 15 without one.
pub open spec fn fps_argument(args: JsonView) -> u32 {
    match get(args, "fps"@) {
        Some(v) => match as_u64(v) {
            Some(n) => if n < 1 {
                1
            } else if n > 30 {
                30
            } else {
                n as u32
            },
            None => 15,
        },
        None => 15,
    }
}

/// What a call of the tool `name` at frame rate `fps` asks of the server.
pub open spec fn tool_call_view(name: Seq<char>, fps: u32, id: JsonView) -> StepView {
    if name == "start_recording"@ {
        StepView::StartRecording(id)
    } else if name == "stop_recording"@ {
        StepView::StopRecording(id, fps)
    } else {
        StepView::Reply(error_reply_view(id, -32601i64, "Unknown tool: "@ + name))
    }
}

/// What a `tools/call` for the tool `name` with `args` asks of the server.
pub open spec fn tool_step(name: Seq<char>, args: JsonView, id: JsonView) -> StepView {
    tool_call_view(name, fps_argument(args), id)
}

/// The reply to `initialize`.
pub open spec fn initialize_result_view() -> JsonView {
    JsonView::Object(
        seq![
            ("protocolVersion"@, JsonView::Str("2024-11-05"@)),
            (
                "capabilities"@,
                JsonView::Object(seq![("tools"@, JsonView::Object(Seq::empty()))]),
            ),
            (
                "serverInfo"@,
                JsonView::Object(
                    seq![
                        ("name"@, JsonView::Str("gif-that-for-you"@)),
                        ("version"@, JsonView::Str("0.1.0"@)),
                    ],
                ),
            ),
        ],
    )
}

/// What the server does with a JSON-RPC message: messages without a string
/// `method` or without an `id` (notifications) get no reply; `initialize`,
/// `ping` and `tools/list` are answered; `tools/call` names a tool in
/// `params`; any other method is answered with error -32601.
pub open spec fn message_step(msg: JsonView) -> StepView {
    match get(msg, "method"@) {
        None => StepView::Silent,
        Some(m) => match as_str(m) {
            None => StepView::Silent,
            Some(method) => match get(msg, "id"@) {
                None => StepView::Silent,
                Some(id) => if method == "initialize"@ {
                    StepView::Reply(reply_view(id, initialize_result_view()))
                } else if method == "ping"@ {
                    StepView::Reply(reply_view(id, JsonView::Object(Seq::empty())))
                } else if method == "tools/list"@ {
                    StepView::Reply(
                        reply_view(id, JsonView::Object(seq![("tools"@, tools_schema_view())])),
                    )
                } else if method == "tools/call"@ {
                    match get(msg, "params"@) {
                        None => StepView::Silent,
                        Some(params) => match get(params, "name"@) {
                            None => StepView::Silent,
                            Some(n) => match as_str(n) {
                                None => StepView::Silent,
                                Some(name) => tool_step(
                                    name,
                                    match get(params, "arguments"@) {
                                        Some(a) => a,
                                        None => JsonView::Object(Seq::empty()),
                                    },
                                    id,
                                ),
                            },
                        },
                    }
                } else {
                    StepView::Reply(error_reply_view(id, -32601i64, "Method not found"@))
                },
            },
        },
    }
}

/// The frame rate asked for by the arguments of a `stop_recording` call.
pub fn fps_from_arguments(args: Option<&Json>) -> (fps: u32)
    ensures
        fps == fps_argument(
            match args {
                Some(a) => json_view(*a),
                None => JsonView::Object(Seq::empty()),
            },
        ),
{
    let a = match args {
        Some(a) => a,
        None => {
            return 15;
        },
    };
    match get_member(a, "fps") {
        Some(Json::Number(JsonNumber::PosInt(n))) => {
            if *n < 1 {
                1
            } else if *n > 30 {
                30
            } else {
                *n as u32
            }
        },
        _ => 15,
    }
}

fn tool_call_step(name: &String, fps: u32, id: Json) -> (r: McpStep)
    ensures
        step_view(r) == tool_call_view(name@, fps, json_view(id)),
{
    if same_text(name, "start_recording") {
        McpStep::StartRecording { id }
    } else if same_text(name, "stop_recording") {
        McpStep::StopRecording { id, fps }
    } else {
        let mut message = string_of("Unknown tool: ");
        message.append(name.as_str());
        McpStep::Reply(error_reply(id, -32601, message))
    }
}

/// What a `tools/call` for tool `name`, with these arguments, asks of the server.
pub fn dispatch_tool(name: &String, args: Option<&Json>, id: Json) -> (r: McpStep)
    ensures
        step_view(r) == tool_step(
            name@,
            match args {
                Some(a) => json_view(*a),
                None => JsonView::Object(Seq::empty()),
            },
            json_view(id),
        ),
{
    let fps = fps_from_arguments(args);
    tool_call_step(name, fps, id)
}

enum MethodKind {
    Initialize,
    Ping,
    ToolsList,
    ToolsCall,
    Unknown,
}

/// Decides what to do with a JSON-RPC message.
pub fn handle_message(msg: Json) -> (r: McpStep)
    ensures
        step_view(r) == message_step(json_view(msg)),
{
    let mut ms = match msg {
        Json::Object(ms) => ms,
        _ => {
            return McpStep::Silent;
        },
    };
    proof {
        lemma_object_view(ms);
    }
    let ghost mv = json_view(msg);
    let kind = match find_member(&ms, "method") {
        None => {
            return McpStep::Silent;
        },
        Some(i) => match &ms[i].value {
            Json::Str(method) => {
                if same_text(method, "initialize") {
                    MethodKind::Initialize
                } else if same_text(method, "ping") {
                    MethodKind::Ping
                } else if same_text(method, "tools/list") {
                    MethodKind::ToolsList
                } else if same_text(method, "tools/call") {
                    MethodKind::ToolsCall
                } else {
                    MethodKind::Unknown
                }
            },
            _ => {
                return McpStep::Silent;
            },
        },
    };
    let id_index = match find_member(&ms, "id") {
        None => {
            return McpStep::Silent;
        },
        Some(i) => i,
    };
    match kind {
        MethodKind::ToolsCall => {
            let (name, fps) = match find_member(&ms, "params") {
                None => {
                    return McpStep::Silent;
                },
                Some(p) => {
                    let params = &ms[p].value;
                    let name = match get_member(params, "name") {
                        Some(Json::Str(n)) => n.clone(),
                        _ => {
                            return McpStep::Silent;
                        },
                    };
                    (name, fps_from_arguments(get_member(params, "arguments")))
                },
            };
            let id = ms.remove(id_index).value;
            tool_call_step(&name, fps, id)
        },
        MethodKind::Initialize => {
            let id = ms.remove(id_index).value;
            McpStep::Reply(reply(id, initialize_result()))
        },
        MethodKind::Ping => {
            let id = ms.remove(id_index).value;
            let empty: Vec<Member> = Vec::new();
            assert(members_view(empty@) =~= Seq::<(Seq<char>, JsonView)>::empty());
            McpStep::Reply(reply(id, json_object(empty)))
        },
        MethodKind::ToolsList => {
            let id = ms.remove(id_index).value;
            let mut result: Vec<Member> = Vec::new();
            put(&mut result, "tools", tools_schema());
            assert(members_view(result@) =~= seq![("tools"@, tools_schema_view())]);
            McpStep::Reply(reply(id, json_object(result)))
        },
        MethodKind::Unknown => {
            let id = ms.remove(id_index).value;
            McpStep::Reply(error_reply(id, -32601, string_of("Method not found")))
        },
    }
}

fn initialize_result() -> (r: Json)
    ensures
        json_view(r) == initialize_result_view(),
{
    let mut tools: Vec<Member> = Vec::new();
    let empty: Vec<Member> = Vec::new();
    assert(members_view(empty@) =~= Seq::<(Seq<char>, JsonView)>::empty());
    put(&mut tools, "tools", json_object(empty));
    let ghost tv = members_view(tools@);
    assert(tv =~= seq![("tools"@, JsonView::Object(Seq::empty()))]);
    let mut info: Vec<Member> = Vec::new();
    put(&mut info, "name", json_text("gif-that-for-you"));
    put(&mut info, "version", json_text("0.1.0"));
    let ghost iv = members_view(info@);
    assert(iv =~= seq![
        ("name"@, JsonView::Str("gif-that-for-you"@)),
        ("version"@, JsonView::Str("0.1.0"@)),
    ]);
    let mut r: Vec<Member> = Vec::new();
    put(&mut r, "protocolVersion", json_text("2024-11-05"));
    put(&mut r, "capabilities", json_object(tools));
    put(&mut r, "serverInfo", json_object(info));
    assert(members_view(r@) =~= seq![
        ("protocolVersion"@, JsonView::Str("2024-11-05"@)),
        ("capabilities"@, JsonView::Object(tv)),
        ("serverInfo"@, JsonView::Object(iv)),
    ]);
    json_object(r)
}

/// How the start of a recording ended, as the server learns it.
pub enum StartOutcome {
    /// The capture runs.
    Started,
    /// It failed with this message.
    Failed(String),
    /// The recording side went away without an answer.
    ChannelClosed,
}

/// The text the server reports once a recording has started.
pub open spec fn started_text() -> Seq<char> {
    "Recording started. A system dialog was shown for the user to \
     select which screen or window to share. \
     Call stop_recording when done."@
}

/// The reply to `start_recording` for each way the start can end.
pub open spec fn start_reply_view(id: JsonView, outcome: StartOutcome) -> JsonView {
    match outcome {
        StartOutcome::Started => tool_result_view(id, started_text(), false),
        StartOutcome::Failed(e) => tool_result_view(id, e@, true),
        StartOutcome::ChannelClosed => tool_result_view(
            id,
            "Internal error: result channel closed"@,
            true,
        ),
    }
}

/// Answers a `start_recording` call.
pub fn start_recording_reply(id: Json, outcome: StartOutcome) -> (r: Json)
    ensures
        json_view(r) == start_reply_view(json_view(id), outcome),
{
    match outcome {
        StartOutcome::Started => tool_result(
            id,
            "Recording started. A system dialog was shown for the user to \
             select which screen or window to share. \
             Call stop_recording when done.",
            false,
        ),
        StartOutcome::Failed(e) => tool_result(id, e.as_str(), true),
        StartOutcome::ChannelClosed => tool_result(id, "Internal error: result channel closed", true),
    }
}

/// The reply to `stop_recording`: where the GIF was saved, or the error.
pub open spec fn stop_reply_view(id: JsonView, result: Result<Seq<char>, Seq<char>>) -> JsonView {
    match result {
        Ok(path) => tool_result_view(id, "GIF saved to "@ + path, false),
        Err(e) => tool_result_view(id, e, true),
    }
}

/// Answers a `stop_recording` call with the saved path (as displayed) or the error.
pub fn stop_recording_reply(id: Json, result: &Result<String, String>) -> (r: Json)
    ensures
        json_view(r) == stop_reply_view(
            json_view(id),
            match result {
                Ok(p) => Ok(p@),
                Err(e) => Err(e@),
            },
        ),
{
    match result {
        Ok(path) => {
            let mut t = string_of("GIF saved to ");
            t.append(path.as_str());
            tool_result(id, t.as_str(), false)
        },
        Err(e) => tool_result(id, e.as_str(), true),
    }
}

// ---------------------------------------------------------------------------
// Laws of the server
// ---------------------------------------------------------------------------
/// A message without an `id` (a notification) is never answered.
pub proof fn law_notifications_get_no_reply(msg: JsonView)
    requires
        get(msg, "id"@) is None,
    ensures
        message_step(msg) == StepView::Silent,
{
}

proof fn lemma_reply_fields(id: JsonView, result: JsonView)
    ensures
        get(reply_view(id, result), "id"@) == Some(id),
        get(reply_view(id, result), "jsonrpc"@) == Some(JsonView::Str("2.0"@)),
{
    reveal_strlit("jsonrpc");
    reveal_strlit("id");
    let ms = seq![("jsonrpc"@, JsonView::Str("2.0"@)), ("id"@, id), ("result"@, result)];
    assert(ms[0].0 != "id"@) by {
        assert(ms[0].0[0] != "id"@[0]);
    }
    assert(ms.drop_first()[0] == ("id"@, id));
    assert(lookup(ms.drop_first(), "id"@) == Some(id));
    assert(lookup(ms, "id"@) == lookup(ms.drop_first(), "id"@));
    assert(ms[0].0 == "jsonrpc"@);
}

proof fn lemma_error_reply_fields(id: JsonView, code: i64, message: Seq<char>)
    ensures
        get(error_reply_view(id, code, message), "id"@) == Some(id),
        get(error_reply_view(id, code, message), "jsonrpc"@) == Some(JsonView::Str("2.0"@)),
{
    reveal_strlit("jsonrpc");
    reveal_strlit("id");
    let e = JsonView::Object(
        seq![
            ("code"@, JsonView::Number(JsonNumber::NegInt(code))),
            ("message"@, JsonView::Str(message)),
        ],
    );
    let ms = seq![("jsonrpc"@, JsonView::Str("2.0"@)), ("id"@, id), ("error"@, e)];
    assert(ms[0].0 != "id"@) by {
        assert(ms[0].0[0] != "id"@[0]);
    }
    assert(ms.drop_first()[0] == ("id"@, id));
    assert(lookup(ms.drop_first(), "id"@) == Some(id));
    assert(lookup(ms, "id"@) == lookup(ms.drop_first(), "id"@));
    assert(ms[0].0 == "jsonrpc"@);
}

/// Every reply is a JSON-RPC 2.0 reply to the request it answers: it carries
/// the request's `id`; and a tool call is run for the request's `id`.
pub proof fn law_replies_echo_the_request_id(msg: JsonView)
    ensures
        match message_step(msg) {
            StepView::Reply(r) => get(r, "id"@) == get(msg, "id"@) && get(r, "jsonrpc"@) == Some(
                JsonView::Str("2.0"@),
            ),
            StepView::StartRecording(id) => get(msg, "id"@) == Some(id),
            StepView::StopRecording(id, _) => get(msg, "id"@) == Some(id),
            StepView::Silent => true,
        },
{
    match get(msg, "id"@) {
        Some(id) => {
            lemma_reply_fields(id, initialize_result_view());
            lemma_reply_fields(id, JsonView::Object(Seq::empty()));
            lemma_reply_fields(id, JsonView::Object(seq![("tools"@, tools_schema_view())]));
            lemma_error_reply_fields(id, -32601i64, "Method not found"@);
            match get(msg, "params"@) {
                Some(params) => match get(params, "name"@) {
                    Some(n) => match as_str(n) {
                        Some(name) => lemma_error_reply_fields(id, -32601i64, "Unknown tool: "@ + name),
                        None => {},
                    },
                    None => {},
                },
                None => {},
            }
        },
        None => {},
    }
}

/// The answers to the tool calls echo the request's `id` as well.
pub proof fn law_tool_replies_echo_the_request_id(
    id: JsonView,
    outcome: StartOutcome,
    result: Result<Seq<char>, Seq<char>>,
)
    ensures
        get(start_reply_view(id, outcome), "id"@) == Some(id),
        get(stop_reply_view(id, result), "id"@) == Some(id),
{
    match outcome {
        StartOutcome::Started => lemma_reply_fields(
            id,
            tool_result_view(id, started_text(), false)->Object_0[2].1,
        ),
        StartOutcome::Failed(e) => lemma_reply_fields(id, tool_result_view(id, e@, true)->Object_0[2].1),
        StartOutcome::ChannelClosed => lemma_reply_fields(
            id,
            tool_result_view(id, "Internal error: result channel closed"@, true)->Object_0[2].1,
        ),
    }
    match result {
        Ok(p) => lemma_reply_fields(id, tool_result_view(id, "GIF saved to "@ + p, false)->Object_0[2].1),
        Err(e) => lemma_reply_fields(id, tool_result_view(id, e, true)->Object_0[2].1),
    }
}

/// A stop is always asked at a frame rate from 1 to 30.
pub proof fn law_stop_frame_rate_in_range(msg: JsonView)
    ensures
        message_step(msg) matches StepView::StopRecording(_, fps) ==> 1 <= fps <= 30,
{
}

} // verus!
