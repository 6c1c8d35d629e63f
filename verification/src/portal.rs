//! The XDG ScreenCast portal negotiation: request tokens and paths, response
//! codes, and the state machine that drives `CreateSession`, `SelectSources`,
//! `Start` and `OpenPipeWireRemote` in turn.
use vstd::prelude::*;

use crate::text::{
    chars_of, decimal, lemma_decimal_injective, push_char, push_decimal, string_of,
};
use crate::variant::{
    children, container, dict_str, is_container, is_vardict, lookup_str, parse_streams,
    stream_node, stream_scan_defined, stream_scan_ok, u32_of, unboxed, vardict, Variant,
};

verus! {

// ---------------------------------------------------------------------------
// Request tokens
// ---------------------------------------------------------------------------
/// The request token made from counter value `n`.
pub open spec fn token_text(n: u32) -> Seq<char> {
    "gif_that_for_you_"@ + decimal(n as nat)
}

/// The counter value after `n`; the counter wraps around as an atomic add does.
pub open spec fn next_count(n: u32) -> u32 {
    if n == u32::MAX {
        0
    } else {
        (n + 1) as u32
    }
}

/// A counter of request tokens, shared by every portal session of a process,
/// so that no two requests subscribe to the same path.
pub struct TokenCounter {
    next: u32,
}

impl View for TokenCounter {
    type V = u32;

    /// The counter value the next token is made from.
    closed spec fn view(&self) -> u32 {
        self.next
    }
}

impl TokenCounter {
    /// A counter whose first token is made from 1.
    pub fn new() -> (c: Self)
        ensures
            c@ == 1,
    {
        TokenCounter { next: 1 }
    }

    /// Hands out the next token and advances the counter.
    pub fn issue(&mut self) -> (t: String)
        ensures
            t@ == token_text(old(self)@),
            final(self)@ == next_count(old(self)@),
    {
        let n = self.next;
        self.next = n.wrapping_add(1);
        let mut t = string_of("gif_that_for_you_");
        push_decimal(&mut t, n as u64);
        t
    }
}

/// Tokens made from distinct counter values are distinct.
pub proof fn law_tokens_distinct(a: u32, b: u32)
    requires
        a != b,
    ensures
        token_text(a) != token_text(b),
{
    if token_text(a) == token_text(b) {
        let p = "gif_that_for_you_"@;
        assert(decimal(a as nat) =~= token_text(a).subrange(p.len() as int, token_text(a).len() as int));
        assert(decimal(b as nat) =~= token_text(b).subrange(p.len() as int, token_text(b).len() as int));
        lemma_decimal_injective(a as nat, b as nat);
    }
}

/// Counter values met while `k` tokens are issued from `n`.
pub open spec fn count_after(n: u32, k: nat) -> u32
    decreases k,
{
    if k == 0 {
        n
    } else {
        next_count(count_after(n, (k - 1) as nat))
    }
}

proof fn lemma_count_after(n: u32, k: nat)
    ensures
        count_after(n, k) as int == (n as int + k) % 0x1_0000_0000,
    decreases k,
{
    if k > 0 {
        lemma_count_after(n, (k - 1) as nat);
    }
}

/// Of the tokens that one counter hands out in a row, any two of fewer than
/// 2^32 calls apart are distinct.
pub proof fn law_counter_tokens_unique(n: u32, i: nat, j: nat)
    requires
        i < j,
        j - i < 0x1_0000_0000,
    ensures
        token_text(count_after(n, i)) != token_text(count_after(n, j)),
{
    lemma_count_after(n, i);
    lemma_count_after(n, j);
    assert(count_after(n, i) != count_after(n, j)) by (nonlinear_arith)
        requires
            count_after(n, i) as int == (n as int + i) % 0x1_0000_0000,
            count_after(n, j) as int == (n as int + j) % 0x1_0000_0000,
            i < j,
            j - i < 0x1_0000_0000,
    ;
    law_tokens_distinct(count_after(n, i), count_after(n, j));
}

// ---------------------------------------------------------------------------
// Request paths
// ---------------------------------------------------------------------------
/// The connection's unique name as a path segment: `.` becomes `_` and `:` is dropped.
pub open spec fn sender_segment(name: Seq<char>) -> Seq<char>
    decreases name.len(),
{
    if name.len() == 0 {
        Seq::empty()
    } else {
        let rest = sender_segment(name.drop_last());
        let c = name.last();
        if c == '.' {
            rest.push('_')
        } else if c == ':' {
            rest
        } else {
            rest.push(c)
        }
    }
}

/// The unique name of the connection, or the empty text when it has none.
pub open spec fn unique_name_text(unique_name: Option<String>) -> Seq<char> {
    match unique_name {
        Some(s) => s@,
        None => Seq::empty(),
    }
}

/// The object path on which the portal answers the request with `token`.
pub open spec fn request_path_text(sender: Seq<char>, token: Seq<char>) -> Seq<char> {
    "/org/freedesktop/portal/desktop/request/"@ + sender + "/"@ + token
}

/// The path segment for a connection's unique name (`None` when it has none).
pub fn sender_segment_of(unique_name: &Option<String>) -> (r: String)
    ensures
        r@ == sender_segment(unique_name_text(*unique_name)),
{
    let mut r = String::new();
    match unique_name {
        None => {
            assert(r@ =~= sender_segment(Seq::empty()));
        },
        Some(name) => {
            let cs = chars_of(name.as_str());
            let mut i: usize = 0;
            assert(cs@.take(0) =~= Seq::<char>::empty());
            while i < cs.len()
                invariant
                    i <= cs@.len(),
                    cs@ == name@,
                    r@ == sender_segment(cs@.take(i as int)),
                decreases cs.len() - i,
            {
                let c = cs[i];
                assert(cs@.take(i + 1).drop_last() =~= cs@.take(i as int));
                assert(cs@.take(i + 1).last() == c);
                if c == '.' {
                    push_char(&mut r, '_');
                } else if c != ':' {
                    push_char(&mut r, c);
                }
                i = i + 1;
            }
            assert(cs@.take(cs@.len() as int) =~= cs@);
        },
    }
    r
}

/// The request path for `token` on a connection whose name gave `sender`.
pub fn request_path(sender: &String, token: &String) -> (r: String)
    ensures
        r@ == request_path_text(sender@, token@),
{
    let mut r = string_of("/org/freedesktop/portal/desktop/request/");
    r.append(sender.as_str());
    r.append("/");
    r.append(token.as_str());
    r
}

// ---------------------------------------------------------------------------
// Object paths
// ---------------------------------------------------------------------------
/// A character allowed inside an element of a D-Bus object path.
pub open spec fn is_path_char(c: char) -> bool {
    ('A' <= c && c <= 'Z') || ('a' <= c && c <= 'z') || ('0' <= c && c <= '9') || c == '_'
}

/// A D-Bus object path: `/`, or `/` followed by non-empty elements of
/// `[A-Za-z0-9_]` separated by single `/` and not ending in `/`.
pub open spec fn is_object_path(s: Seq<char>) -> bool {
    &&& s.len() >= 1
    &&& s[0] == '/'
    &&& (s.len() == 1 || s.last() != '/')
    &&& forall|i: int|
        1 <= i < s.len() ==> (is_path_char(#[trigger] s[i]) || (s[i] == '/' && s[i - 1] != '/'))
}

/// The length of the text before the first NUL character (the whole text if none).
pub open spec fn c_text_len(s: Seq<char>, i: nat) -> nat
    decreases s.len() - i,
{
    if i >= s.len() {
        s.len()
    } else if s[i as int] == '\0' {
        i
    } else {
        c_text_len(s, i + 1)
    }
}

/// The text as the C library sees it: up to its first NUL character.
pub open spec fn c_text(s: Seq<char>) -> Seq<char> {
    s.take(c_text_len(s, 0) as int)
}

proof fn lemma_c_text_len(s: Seq<char>, i: nat)
    requires
        i <= s.len(),
    ensures
        i <= c_text_len(s, i) <= s.len(),
        forall|j: int| i <= j < c_text_len(s, i) ==> s[j] != '\0',
        c_text_len(s, i) < s.len() ==> s[c_text_len(s, i) as int] == '\0',
    decreases s.len() - i,
{
    if i < s.len() && s[i as int] != '\0' {
        lemma_c_text_len(s, i + 1);
    }
}

/// Whether `ObjectPath::try_from` accepts the text.
pub fn valid_object_path(s: &String) -> (r: bool)
    ensures
        r == is_object_path(c_text(s@)),
{
    let cs = chars_of(s.as_str());
    let mut end: usize = 0;
    while end < cs.len() && cs[end] != '\0'
        invariant
            end <= cs@.len(),
            forall|j: int| 0 <= j < end ==> cs@[j] != '\0',
        decreases cs.len() - end,
    {
        end = end + 1;
    }
    let ghost t = cs@.take(end as int);
    proof {
        lemma_c_text_len(cs@, 0);
        let k = c_text_len(cs@, 0);
        if k < end {
            assert(cs@[k as int] == '\0');
        }
        if end < k {
            assert(cs@[end as int] == '\0');
        }
        assert(k == end);
        assert(t =~= c_text(s@));
    }
    if end == 0 || cs[0] != '/' {
        return false;
    }
    if end > 1 && cs[end - 1] == '/' {
        return false;
    }
    let mut i: usize = 1;
    while i < end
        invariant
            1 <= i <= end <= cs@.len(),
            t == cs@.take(end as int),
            t == c_text(s@),
            t[0] == '/',
            forall|j: int| 1 <= j < i ==> (is_path_char(#[trigger] t[j]) || (t[j] == '/' && t[j - 1] != '/')),
        decreases end - i,
    {
        let c = cs[i];
        let ok = ('A' <= c && c <= 'Z') || ('a' <= c && c <= 'z') || ('0' <= c && c <= '9') || c
            == '_' || (c == '/' && cs[i - 1] != '/');
        if !ok {
            assert(!(is_path_char(t[i as int]) || (t[i as int] == '/' && t[i - 1] != '/')));
            return false;
        }
        i = i + 1;
    }
    true
}

// ---------------------------------------------------------------------------
// Response codes
// ---------------------------------------------------------------------------
/// The message for a request that the portal answered with a non-zero code.
pub open spec fn portal_error_text(step: Seq<char>, response: u32) -> Seq<char> {
    if response == 1 {
        "Portal: user cancelled at "@ + step + " (1)"@
    } else if response == 2 {
        "Portal: "@ + step + " failed: Other error (2)"@
    } else if response == 3 {
        "Portal: "@ + step + " failed: Not found (3)"@
    } else {
        "Portal: "@ + step + " failed (response code "@ + decimal(response as nat) + ")"@
    }
}

/// Describes a portal response code for the request made at `step`.
pub fn portal_error(step: &str, response: u32) -> (r: String)
    ensures
        r@ == portal_error_text(step@, response),
{
    if response == 1 {
        let mut r = string_of("Portal: user cancelled at ");
        r.append(step);
        r.append(" (1)");
        r
    } else if response == 2 {
        let mut r = string_of("Portal: ");
        r.append(step);
        r.append(" failed: Other error (2)");
        r
    } else if response == 3 {
        let mut r = string_of("Portal: ");
        r.append(step);
        r.append(" failed: Not found (3)");
        r
    } else {
        let mut r = string_of("Portal: ");
        r.append(step);
        r.append(" failed (response code ");
        push_decimal(&mut r, response as u64);
        r.append(")");
        r
    }
}

/// The message when the session bus cannot be reached.
pub fn session_bus_error(error: &str) -> (r: String)
    ensures
        r@ == "Failed to connect to session bus: "@ + error@,
{
    let mut r = string_of("Failed to connect to session bus: ");
    r.append(error);
    r
}

// ---------------------------------------------------------------------------
// The negotiation
// ---------------------------------------------------------------------------
/// Where a negotiation stands.
#[derive(Clone, Copy, Debug, PartialEq, Eq)]
pub enum FlowStep {
    /// `CreateSession` was called; its response is awaited.
    CreateSession,
    /// `SelectSources` was called; its response is awaited.
    SelectSources,
    /// `Start` was called; its response is awaited.
    Start,
    /// `OpenPipeWireRemote` was called for the stream with this node.
    OpenRemote { node_id: u32 },
    /// The file descriptor at the reply's handle is being taken.
    TakeFd { node_id: u32 },
    /// The stream was handed over.
    Done,
    /// The negotiation failed and was reported.
    Failed,
}

/// The abstract state of a negotiation.
pub struct FlowView {
    pub step: FlowStep,
    pub session_handle: Option<Seq<char>>,
    pub source_types: u32,
    pub sender: Seq<char>,
}

/// A portal method call, with the arguments the negotiation chose.
pub enum PortalCall {
    /// Subscribe to the response at `request_path`, then call `CreateSession`
    /// with the options `handle_token` and `session_handle_token`.
    CreateSession { request_path: String, handle_token: String, session_handle_token: String },
    /// Subscribe to the response at `request_path`, then call `SelectSources`
    /// on the session with the options `handle_token`, `types` and `cursor_mode`.
    SelectSources {
        request_path: String,
        session_handle: String,
        handle_token: String,
        types: u32,
        cursor_mode: u32,
    },
    /// Subscribe to the response at `request_path`, then call `Start` on the
    /// session with the parent window and the option `handle_token`.
    Start { request_path: String, session_handle: String, handle_token: String, parent_window: String },
    /// Call `OpenPipeWireRemote` on the session, expecting a file descriptor list.
    OpenPipeWireRemote { session_handle: String },
}

/// A portal method call, abstractly.
pub enum CallView {
    CreateSession { request_path: Seq<char>, handle_token: Seq<char>, session_handle_token: Seq<char> },
    SelectSources {
        request_path: Seq<char>,
        session_handle: Seq<char>,
        handle_token: Seq<char>,
        types: u32,
        cursor_mode: u32,
    },
    Start {
        request_path: Seq<char>,
        session_handle: Seq<char>,
        handle_token: Seq<char>,
        parent_window: Seq<char>,
    },
    OpenPipeWireRemote { session_handle: Seq<char> },
}

impl View for PortalCall {
    type V = CallView;

    open spec fn view(&self) -> CallView {
        match self {
            PortalCall::CreateSession { request_path, handle_token, session_handle_token } =>
                CallView::CreateSession {
                request_path: request_path@,
                handle_token: handle_token@,
                session_handle_token: session_handle_token@,
            },
            PortalCall::SelectSources {
                request_path,
                session_handle,
                handle_token,
                types,
                cursor_mode,
            } => CallView::SelectSources {
                request_path: request_path@,
                session_handle: session_handle@,
                handle_token: handle_token@,
                types: *types,
                cursor_mode: *cursor_mode,
            },
            PortalCall::Start { request_path, session_handle, handle_token, parent_window } =>
                CallView::Start {
                request_path: request_path@,
                session_handle: session_handle@,
                handle_token: handle_token@,
                parent_window: parent_window@,
            },
            PortalCall::OpenPipeWireRemote { session_handle } => CallView::OpenPipeWireRemote {
                session_handle: session_handle@,
            },
        }
    }
}

/// What the negotiation asks of its caller next.
pub enum PortalAction {
    /// Make this call.
    Call(PortalCall),
    /// Take the file descriptor at this index of the reply's descriptor list.
    TakeFd { index: i32 },
    /// Hand over the stream with this PipeWire node (and the descriptor taken).
    Succeed { node_id: u32 },
    /// Report this failure.
    Fail { message: String },
    /// Nothing to do.
    Ignore,
}

/// What the negotiation asks next, abstractly.
pub enum ActionView {
    Call(CallView),
    TakeFd(i32),
    Succeed(u32),
    Fail(Seq<char>),
    Ignore,
}

impl View for PortalAction {
    type V = ActionView;

    open spec fn view(&self) -> ActionView {
        match self {
            PortalAction::Call(c) => ActionView::Call(c@),
            PortalAction::TakeFd { index } => ActionView::TakeFd(*index),
            PortalAction::Succeed { node_id } => ActionView::Succeed(*node_id),
            PortalAction::Fail { message } => ActionView::Fail(message@),
            PortalAction::Ignore => ActionView::Ignore,
        }
    }
}

/// What happened since the last action.
pub enum PortalEvent {
    /// The `Response` signal arrived for the awaited request, with these parameters.
    Signal(Variant),
    /// The awaited asynchronous method call reported this error.
    CallFailed(String),
    /// `OpenPipeWireRemote` failed with this error.
    RemoteFailed(String),
    /// `OpenPipeWireRemote` replied without a file descriptor list.
    RemoteNoFdList,
    /// `OpenPipeWireRemote` replied with this handle.
    RemoteHandle(i32),
    /// Whether the file descriptor could be taken from the list.
    FdTaken(bool),
}

/// A negotiation of one screencast session with the portal.
pub struct PortalFlow {
    step: FlowStep,
    session_handle: Option<String>,
    source_types: u32,
    sender: String,
}

impl View for PortalFlow {
    type V = FlowView;

    closed spec fn view(&self) -> FlowView {
        FlowView {
            step: self.step,
            session_handle: match self.session_handle {
                Some(h) => Some(h@),
                None => None,
            },
            source_types: self.source_types,
            sender: self.sender@,
        }
    }
}

/// The portal method awaited at a step, as named in messages.
pub open spec fn step_method(step: FlowStep) -> Seq<char> {
    match step {
        FlowStep::CreateSession => "CreateSession"@,
        FlowStep::SelectSources => "SelectSources"@,
        FlowStep::Start => "Start"@,
        _ => "OpenPipeWireRemote"@,
    }
}

/// The state after a failure, with the failure to report.
pub open spec fn failed(f: FlowView, message: Seq<char>) -> (FlowView, ActionView) {
    (FlowView { step: FlowStep::Failed, ..f }, ActionView::Fail(message))
}

/// Issuing a token and calling `SelectSources` on the session.
pub open spec fn select_sources_step(f: FlowView, n: u32) -> (FlowView, ActionView, u32) {
    let token = token_text(n);
    let path = request_path_text(f.sender, token);
    match f.session_handle {
        None => {
            let (g, a) = failed(f, "Portal: session_handle missing in SelectSources"@);
            (g, a, next_count(n))
        },
        Some(h) => if !is_object_path(c_text(h)) {
            let (g, a) = failed(
                f,
                "Portal: invalid session_handle in SelectSources: Invalid object path"@,
            );
            (g, a, next_count(n))
        } else {
            (
                FlowView { step: FlowStep::SelectSources, ..f },
                ActionView::Call(
                    CallView::SelectSources {
                        request_path: path,
                        session_handle: h,
                        handle_token: token,
                        types: f.source_types,
                        cursor_mode: 2,
                    },
                ),
                next_count(n),
            )
        },
    }
}

/// Issuing a token and calling `Start` on the session.
pub open spec fn start_step(f: FlowView, n: u32) -> (FlowView, ActionView, u32) {
    let token = token_text(n);
    let path = request_path_text(f.sender, token);
    match f.session_handle {
        None => {
            let (g, a) = failed(f, "Portal: session_handle missing in Start"@);
            (g, a, next_count(n))
        },
        Some(h) => if !is_object_path(c_text(h)) {
            let (g, a) = failed(f, "Portal: invalid session_handle in Start: Invalid object path"@);
            (g, a, next_count(n))
        } else {
            (
                FlowView { step: FlowStep::Start, ..f },
                ActionView::Call(
                    CallView::Start {
                        request_path: path,
                        session_handle: h,
                        handle_token: token,
                        parent_window: Seq::empty(),
                    },
                ),
                next_count(n),
            )
        },
    }
}

/// Calling `OpenPipeWireRemote` on the session for the stream with `node_id`.
pub open spec fn open_remote_step(f: FlowView, node_id: u32) -> (FlowView, ActionView) {
    match f.session_handle {
        None => failed(f, "Portal: session_handle missing in OpenPipeWireRemote"@),
        Some(h) => if !is_object_path(c_text(h)) {
            failed(f, "Portal: invalid session_handle in OpenPipeWireRemote: Invalid object path"@)
        } else {
            (
                FlowView { step: FlowStep::OpenRemote { node_id }, ..f },
                ActionView::Call(CallView::OpenPipeWireRemote { session_handle: h }),
            )
        },
    }
}

/// The effect of the portal's response (code and results) to the awaited request,
/// with the token counter at `n`.
pub open spec fn response_transition(f: FlowView, response: u32, results: Variant, n: u32) -> (
    FlowView,
    ActionView,
    u32,
) {
    match f.step {
        FlowStep::CreateSession => if response != 0 {
            let (g, a) = failed(f, portal_error_text("CreateSession"@, response));
            (g, a, n)
        } else {
            match dict_str(results, "session_handle"@) {
                Some(h) => select_sources_step(FlowView { session_handle: Some(h), ..f }, n),
                None => {
                    let (g, a) = failed(
                        f,
                        "Portal: missing session_handle in CreateSession response"@,
                    );
                    (g, a, n)
                },
            }
        },
        FlowStep::SelectSources => if response != 0 {
            let (g, a) = failed(f, portal_error_text("SelectSources"@, response));
            (g, a, n)
        } else {
            start_step(f, n)
        },
        FlowStep::Start => if response != 0 {
            let (g, a) = failed(f, portal_error_text("Start"@, response));
            (g, a, n)
        } else {
            match stream_node(results) {
                Some(node_id) => {
                    let (g, a) = open_remote_step(f, node_id);
                    (g, a, n)
                },
                None => {
                    let (g, a) = failed(f, "Portal: no streams in Start response"@);
                    (g, a, n)
                },
            }
        },
        _ => (f, ActionView::Ignore, n),
    }
}

/// The response code a signal carries: its first child as a `u`, else 2.
pub open spec fn signal_code(params: Variant) -> u32 {
    match u32_of(children(params)[0]) {
        Some(c) => c,
        None => 2,
    }
}

/// The effect of an event on a negotiation, with the token counter at `n`:
/// the next state, the action, and the counter afterwards.
pub open spec fn transition(f: FlowView, e: PortalEvent, n: u32) -> (FlowView, ActionView, u32) {
    let awaiting_call = f.step is CreateSession || f.step is SelectSources || f.step is Start;
    match e {
        PortalEvent::Signal(params) => if children(params).len() < 2 {
            (f, ActionView::Ignore, n)
        } else {
            response_transition(f, signal_code(params), children(params)[1], n)
        },
        PortalEvent::CallFailed(err) => if awaiting_call {
            let (g, a) = failed(
                f,
                "Portal: "@ + step_method(f.step) + " method call failed: "@ + err@,
            );
            (g, a, n)
        } else {
            (f, ActionView::Ignore, n)
        },
        PortalEvent::RemoteFailed(err) => if f.step is OpenRemote {
            let (g, a) = failed(f, "Portal: OpenPipeWireRemote failed: "@ + err@);
            (g, a, n)
        } else {
            (f, ActionView::Ignore, n)
        },
        PortalEvent::RemoteNoFdList => if f.step is OpenRemote {
            let (g, a) = failed(f, "Portal: no fd list in OpenPipeWireRemote"@);
            (g, a, n)
        } else {
            (f, ActionView::Ignore, n)
        },
        PortalEvent::RemoteHandle(index) => match f.step {
            FlowStep::OpenRemote { node_id } => if index < 0 {
                let (g, a) = failed(f, "Portal: invalid fd index in OpenPipeWireRemote"@);
                (g, a, n)
            } else {
                (FlowView { step: FlowStep::TakeFd { node_id }, ..f }, ActionView::TakeFd(index), n)
            },
            _ => (f, ActionView::Ignore, n),
        },
        PortalEvent::FdTaken(taken) => match f.step {
            FlowStep::TakeFd { node_id } => if taken {
                (FlowView { step: FlowStep::Done, ..f }, ActionView::Succeed(node_id), n)
            } else {
                let (g, a) = failed(f, "Portal: no file descriptor in OpenPipeWireRemote"@);
                (g, a, n)
            },
            _ => (f, ActionView::Ignore, n),
        },
    }
}

/// The results of a successful response can be read where the step reads them:
/// a vardict after `CreateSession`, a scannable dictionary after `Start`.
pub open spec fn response_readable(f: FlowView, response: u32, results: Variant) -> bool {
    &&& (response == 0 && f.step is CreateSession) ==> is_vardict(unboxed(results))
    &&& (response == 0 && f.step is Start) ==> stream_scan_defined(results)
}

/// The event carries what the negotiation reads of it (signal parameters are
/// always a container, and the results are readable).
pub open spec fn event_readable(f: FlowView, e: PortalEvent) -> bool {
    match e {
        PortalEvent::Signal(params) => is_container(params) && (children(params).len() >= 2
            ==> response_readable(f, signal_code(params), children(params)[1])),
        _ => true,
    }
}

/// The state of a fresh negotiation and its first call, with the counter at `n`:
/// two tokens are issued, one for the request and one for the session.
pub open spec fn begin_transition(source_types: u32, sender: Seq<char>, n: u32) -> (
    FlowView,
    ActionView,
    u32,
) {
    let token = token_text(n);
    let session_token = token_text(next_count(n));
    (
        FlowView {
            step: FlowStep::CreateSession,
            session_handle: None,
            source_types,
            sender,
        },
        ActionView::Call(
            CallView::CreateSession {
                request_path: request_path_text(sender, token),
                handle_token: token,
                session_handle_token: session_token,
            },
        ),
        next_count(next_count(n)),
    )
}

fn fail_with(message: String) -> (a: PortalAction)
    ensures
        a@ == ActionView::Fail(message@),
{
    PortalAction::Fail { message }
}

impl PortalFlow {
    /// Starts a negotiation for the given source types (1 monitor, 2 window,
    /// 3 both) on a connection with the given unique name; the first action is
    /// the `CreateSession` call.
    pub fn begin(source_types: u32, unique_name: &Option<String>, tokens: &mut TokenCounter) -> (r: (
        PortalFlow,
        PortalAction,
    ))
        ensures
            (r.0@, r.1@, final(tokens)@) == begin_transition(
                source_types,
                sender_segment(unique_name_text(*unique_name)),
                old(tokens)@,
            ),
    {
        let token = tokens.issue();
        let session_token = tokens.issue();
        let sender = sender_segment_of(unique_name);
        let path = request_path(&sender, &token);
        let flow = PortalFlow { step: FlowStep::CreateSession, session_handle: None, source_types, sender };
        (
            flow,
            PortalAction::Call(
                PortalCall::CreateSession {
                    request_path: path,
                    handle_token: token,
                    session_handle_token: session_token,
                },
            ),
        )
    }

    /// Whether the negotiation can read what the event carries; an event it
    /// cannot read is a malformed message, on which reading would panic.
    pub fn can_read(&self, event: &PortalEvent) -> (r: bool)
        ensures
            r == event_readable(self@, *event),
    {
        match event {
            PortalEvent::Signal(params) => {
                if !container(params) {
                    return false;
                }
                if params.n_children() < 2 {
                    return true;
                }
                let response = match params.child(0).get_u32() {
                    Some(c) => c,
                    None => 2,
                };
                let results = params.child(1);
                if response != 0 {
                    return true;
                }
                match self.step {
                    FlowStep::CreateSession => vardict(results.unbox()),
                    FlowStep::Start => stream_scan_ok(results),
                    _ => true,
                }
            },
            _ => true,
        }
    }

    /// Where the negotiation stands.
    pub fn step(&self) -> (s: FlowStep)
        ensures
            s == self@.step,
    {
        self.step
    }

    fn fail(&mut self, message: String) -> (a: PortalAction)
        ensures
            (final(self)@, a@) == failed(old(self)@, message@),
    {
        self.step = FlowStep::Failed;
        fail_with(message)
    }

    fn select_sources(&mut self, tokens: &mut TokenCounter) -> (a: PortalAction)
        ensures
            (final(self)@, a@, final(tokens)@) == select_sources_step(old(self)@, old(tokens)@),
    {
        let token = tokens.issue();
        let path = request_path(&self.sender, &token);
        let handle = match &self.session_handle {
            None => {
                return self.fail(string_of("Portal: session_handle missing in SelectSources"));
            },
            Some(h) => h.clone(),
        };
        if !valid_object_path(&handle) {
            return self.fail(
                string_of("Portal: invalid session_handle in SelectSources: Invalid object path"),
            );
        }
        self.step = FlowStep::SelectSources;
        PortalAction::Call(
            PortalCall::SelectSources {
                request_path: path,
                session_handle: handle,
                handle_token: token,
                types: self.source_types,
                cursor_mode: 2,
            },
        )
    }

    fn start(&mut self, tokens: &mut TokenCounter) -> (a: PortalAction)
        ensures
            (final(self)@, a@, final(tokens)@) == start_step(old(self)@, old(tokens)@),
    {
        let token = tokens.issue();
        let path = request_path(&self.sender, &token);
        let handle = match &self.session_handle {
            None => {
                return self.fail(string_of("Portal: session_handle missing in Start"));
            },
            Some(h) => h.clone(),
        };
        if !valid_object_path(&handle) {
            return self.fail(string_of("Portal: invalid session_handle in Start: Invalid object path"));
        }
        self.step = FlowStep::Start;
        let parent_window = String::new();
        assert(parent_window@ =~= Seq::<char>::empty());
        PortalAction::Call(
            PortalCall::Start { request_path: path, session_handle: handle, handle_token: token, parent_window },
        )
    }

    fn open_remote(&mut self, node_id: u32) -> (a: PortalAction)
        ensures
            (final(self)@, a@) == open_remote_step(old(self)@, node_id),
    {
        let handle = match &self.session_handle {
            None => {
                return self.fail(string_of("Portal: session_handle missing in OpenPipeWireRemote"));
            },
            Some(h) => h.clone(),
        };
        if !valid_object_path(&handle) {
            return self.fail(
                string_of("Portal: invalid session_handle in OpenPipeWireRemote: Invalid object path"),
            );
        }
        self.step = FlowStep::OpenRemote { node_id };
        PortalAction::Call(PortalCall::OpenPipeWireRemote { session_handle: handle })
    }

    /// Takes in the portal's response (code and results) to the awaited request.
    pub fn on_response(&mut self, response: u32, results: &Variant, tokens: &mut TokenCounter) -> (a:
        PortalAction)
        requires
            response_readable(old(self)@, response, *results),
        ensures
            (final(self)@, a@, final(tokens)@) == response_transition(
                old(self)@,
                response,
                *results,
                old(tokens)@,
            ),
    {
        match self.step {
            FlowStep::CreateSession => {
                if response != 0 {
                    return self.fail(portal_error("CreateSession", response));
                }
                proof {
                    reveal_strlit("session_handle");
                }
                match lookup_str(results, "session_handle") {
                    Some(h) => {
                        self.session_handle = Some(h);
                        self.select_sources(tokens)
                    },
                    None => self.fail(
                        string_of("Portal: missing session_handle in CreateSession response"),
                    ),
                }
            },
            FlowStep::SelectSources => {
                if response != 0 {
                    return self.fail(portal_error("SelectSources", response));
                }
                self.start(tokens)
            },
            FlowStep::Start => {
                if response != 0 {
                    return self.fail(portal_error("Start", response));
                }
                match parse_streams(results) {
                    Some(node_id) => self.open_remote(node_id),
                    None => self.fail(string_of("Portal: no streams in Start response")),
                }
            },
            _ => PortalAction::Ignore,
        }
    }

    /// Takes in an event and says what to do next.
    pub fn advance(&mut self, event: PortalEvent, tokens: &mut TokenCounter) -> (a: PortalAction)
        requires
            event_readable(old(self)@, event),
        ensures
            (final(self)@, a@, final(tokens)@) == transition(old(self)@, event, old(tokens)@),
    {
        match event {
            PortalEvent::Signal(params) => {
                if params.n_children() < 2 {
                    return PortalAction::Ignore;
                }
                let response = match params.child(0).get_u32() {
                    Some(c) => c,
                    None => 2,
                };
                self.on_response(response, params.child(1), tokens)
            },
            PortalEvent::CallFailed(err) => {
                let method = match self.step {
                    FlowStep::CreateSession => "CreateSession",
                    FlowStep::SelectSources => "SelectSources",
                    FlowStep::Start => "Start",
                    _ => {
                        return PortalAction::Ignore;
                    },
                };
                let mut m = string_of("Portal: ");
                m.append(method);
                m.append(" method call failed: ");
                m.append(err.as_str());
                self.fail(m)
            },
            PortalEvent::RemoteFailed(err) => {
                if let FlowStep::OpenRemote { .. } = self.step {
                    let mut m = string_of("Portal: OpenPipeWireRemote failed: ");
                    m.append(err.as_str());
                    self.fail(m)
                } else {
                    PortalAction::Ignore
                }
            },
            PortalEvent::RemoteNoFdList => {
                if let FlowStep::OpenRemote { .. } = self.step {
                    self.fail(string_of("Portal: no fd list in OpenPipeWireRemote"))
                } else {
                    PortalAction::Ignore
                }
            },
            PortalEvent::RemoteHandle(index) => {
                match self.step {
                    FlowStep::OpenRemote { node_id } => {
                        if index < 0 {
                            self.fail(string_of("Portal: invalid fd index in OpenPipeWireRemote"))
                        } else {
                            self.step = FlowStep::TakeFd { node_id };
                            PortalAction::TakeFd { index }
                        }
                    },
                    _ => PortalAction::Ignore,
                }
            },
            PortalEvent::FdTaken(taken) => {
                match self.step {
                    FlowStep::TakeFd { node_id } => {
                        if taken {
                            self.step = FlowStep::Done;
                            PortalAction::Succeed { node_id }
                        } else {
                            self.fail(string_of("Portal: no file descriptor in OpenPipeWireRemote"))
                        }
                    },
                    _ => PortalAction::Ignore,
                }
            },
        }
    }
}

// ---------------------------------------------------------------------------
// Laws of the negotiation
// ---------------------------------------------------------------------------
/// The position of a step in the negotiation's order.
pub open spec fn step_rank(step: FlowStep) -> int {
    match step {
        FlowStep::CreateSession => 0,
        FlowStep::SelectSources => 1,
        FlowStep::Start => 2,
        FlowStep::OpenRemote { .. } => 3,
        FlowStep::TakeFd { .. } => 4,
        FlowStep::Done => 5,
        FlowStep::Failed => 6,
    }
}

/// Once the stream is handed over or the negotiation failed, every event is
/// ignored and nothing changes.
pub proof fn law_finished_negotiation_ignores_events(f: FlowView, e: PortalEvent, n: u32)
    requires
        f.step is Done || f.step is Failed,
    ensures
        transition(f, e, n) == (f, ActionView::Ignore, n),
{
}

/// A failure is reported once and ends the negotiation.
pub proof fn law_failure_ends_negotiation(f: FlowView, e: PortalEvent, n: u32)
    ensures
        transition(f, e, n).1 is Fail ==> transition(f, e, n).0.step is Failed,
{
}

/// Each event either leaves the negotiation as it was and asks for nothing,
/// or ends it in failure, or moves it exactly one step forward; the session
/// handle, once the portal gave it, the requested source types and the
/// connection's name are kept throughout.
pub proof fn law_negotiation_moves_forward_in_order(f: FlowView, e: PortalEvent, n: u32)
    ensures
        ({
            let (g, a, m) = transition(f, e, n);
            ||| (g == f && a is Ignore && m == n)
            ||| g.step is Failed
            ||| step_rank(g.step) == step_rank(f.step) + 1
        }),
        transition(f, e, n).0.source_types == f.source_types,
        transition(f, e, n).0.sender == f.sender,
        !(f.step is CreateSession) ==> transition(f, e, n).0.session_handle == f.session_handle,
{
}

/// A request that the portal answers with a non-zero code fails with the
/// message for that code at that step.
pub proof fn law_rejected_request_fails(f: FlowView, response: u32, results: Variant, n: u32)
    requires
        response != 0,
        f.step is CreateSession || f.step is SelectSources || f.step is Start,
    ensures
        response_transition(f, response, results, n) == (
            FlowView { step: FlowStep::Failed, ..f },
            ActionView::Fail(portal_error_text(step_method(f.step), response)),
            n,
        ),
{
}

/// The stream is handed over only when the file descriptor was taken, and it
/// is the stream whose node the `Start` response named.
pub proof fn law_success_hands_over_started_stream(f: FlowView, e: PortalEvent, n: u32, node: u32)
    requires
        transition(f, e, n).1 == ActionView::Succeed(node),
    ensures
        f.step == (FlowStep::TakeFd { node_id: node }),
        e == PortalEvent::FdTaken(true),
        transition(f, e, n).0.step is Done,
{
}

/// Every call but `OpenPipeWireRemote` subscribes to the path of a freshly
/// issued token: the token made from the counter value before the call.
pub proof fn law_calls_use_fresh_tokens(f: FlowView, e: PortalEvent, n: u32)
    ensures
        match transition(f, e, n).1 {
            ActionView::Call(CallView::SelectSources { request_path, handle_token, .. }) =>
                handle_token == token_text(n) && request_path == request_path_text(f.sender, token_text(n))
                    && transition(f, e, n).2 == next_count(n),
            ActionView::Call(CallView::Start { request_path, handle_token, .. }) =>
                handle_token == token_text(n) && request_path == request_path_text(f.sender, token_text(n))
                    && transition(f, e, n).2 == next_count(n),
            _ => true,
        },
{
}

/// Every call made on the session names it by a valid object path, as
/// `ObjectPath::try_from` requires.
pub proof fn law_session_calls_use_valid_object_paths(f: FlowView, e: PortalEvent, n: u32)
    ensures
        match transition(f, e, n).1 {
            ActionView::Call(CallView::SelectSources { session_handle, .. }) => is_object_path(
                c_text(session_handle),
            ),
            ActionView::Call(CallView::Start { session_handle, .. }) => is_object_path(
                c_text(session_handle),
            ),
            ActionView::Call(CallView::OpenPipeWireRemote { session_handle }) => is_object_path(
                c_text(session_handle),
            ),
            _ => true,
        },
{
}

/// The state and the token counter after the events of a run, in order.
pub open spec fn run(f: FlowView, events: Seq<PortalEvent>, n: u32) -> (FlowView, u32)
    decreases events.len(),
{
    if events.len() == 0 {
        (f, n)
    } else {
        let (g, _a, m) = transition(f, events[0], n);
        run(g, events.drop_first(), m)
    }
}

/// Whether `e` is the portal's response with code 0 to the request that `f`
/// awaits, and moves the negotiation on.
pub open spec fn accepted_answer(f: FlowView, e: PortalEvent, n: u32) -> bool {
    &&& e matches PortalEvent::Signal(params)
    &&& children(params).len() >= 2
    &&& signal_code(params) == 0
    &&& step_rank(transition(f, e, n).0.step) == step_rank(f.step) + 1
}

/// The steps whose requests the portal accepted with code 0 during a run, in
/// order.
pub open spec fn accepted_steps(f: FlowView, events: Seq<PortalEvent>, n: u32) -> Seq<FlowStep>
    decreases events.len(),
{
    if events.len() == 0 {
        Seq::empty()
    } else {
        let (g, _a, m) = transition(f, events[0], n);
        let rest = accepted_steps(g, events.drop_first(), m);
        if accepted_answer(f, events[0], n) {
            seq![f.step] + rest
        } else {
            rest
        }
    }
}

/// The portal requests still to be answered from a step on.
pub open spec fn requests_ahead(step: FlowStep) -> Seq<FlowStep> {
    match step {
        FlowStep::CreateSession => seq![
            FlowStep::CreateSession,
            FlowStep::SelectSources,
            FlowStep::Start,
        ],
        FlowStep::SelectSources => seq![FlowStep::SelectSources, FlowStep::Start],
        FlowStep::Start => seq![FlowStep::Start],
        _ => Seq::empty(),
    }
}

proof fn lemma_failed_run_stays_failed(f: FlowView, events: Seq<PortalEvent>, n: u32)
    requires
        f.step is Failed,
    ensures
        run(f, events, n).0.step is Failed,
    decreases events.len(),
{
    if events.len() > 0 {
        law_finished_negotiation_ignores_events(f, events[0], n);
        lemma_failed_run_stays_failed(f, events.drop_first(), n);
    }
}

proof fn lemma_done_run_accepted_requests_ahead(f: FlowView, events: Seq<PortalEvent>, n: u32)
    requires
        run(f, events, n).0.step is Done,
    ensures
        accepted_steps(f, events, n) == requests_ahead(f.step),
    decreases events.len(),
{
    if events.len() > 0 {
        let e = events[0];
        let (g, a, m) = transition(f, e, n);
        law_negotiation_moves_forward_in_order(f, e, n);
        if g.step is Failed {
            lemma_failed_run_stays_failed(g, events.drop_first(), m);
        } else {
            lemma_done_run_accepted_requests_ahead(g, events.drop_first(), m);
            if accepted_answer(f, e, n) {
                assert(seq![f.step] + requests_ahead(g.step) =~= requests_ahead(f.step));
            }
        }
    }
}

/// The stream is handed over only after the portal accepted, with code 0 and
/// in this order, the `CreateSession`, `SelectSources` and `Start` requests of
/// the negotiation: over any run of events from the start, if the negotiation
/// ends with the stream, exactly these three responses moved it on.
pub proof fn law_stream_needs_three_accepted_requests(
    source_types: u32,
    sender: Seq<char>,
    n: u32,
    events: Seq<PortalEvent>,
)
    ensures
        ({
            let (f, _a, m) = begin_transition(source_types, sender, n);
            run(f, events, m).0.step is Done ==> accepted_steps(f, events, m) == seq![
                FlowStep::CreateSession,
                FlowStep::SelectSources,
                FlowStep::Start,
            ]
        }),
{
    let (f, _a, m) = begin_transition(source_types, sender, n);
    if run(f, events, m).0.step is Done {
        lemma_done_run_accepted_requests_ahead(f, events, m);
    }
}

/// Every `SelectSources` call asks the portal for the source types that the
/// negotiation was begun with (1 monitors, 2 windows, 3 both): a negotiation
/// begun with types `t` keeps `t` over any run of events, and each call it
/// makes on the way carries them.
pub proof fn law_select_sources_asks_for_the_chosen_types(
    f: FlowView,
    e: PortalEvent,
    n: u32,
    source_types: u32,
    sender: Seq<char>,
    m: u32,
    events: Seq<PortalEvent>,
)
    ensures
        transition(f, e, n).1 matches ActionView::Call(CallView::SelectSources { types, .. })
            ==> types == f.source_types,
        begin_transition(source_types, sender, m).0.source_types == source_types,
        run(begin_transition(source_types, sender, m).0, events, begin_transition(
            source_types,
            sender,
            m,
        ).2).0.source_types == source_types,
{
    lemma_run_keeps_source_types(begin_transition(source_types, sender, m).0, events, begin_transition(
        source_types,
        sender,
        m,
    ).2);
}

proof fn lemma_run_keeps_source_types(f: FlowView, events: Seq<PortalEvent>, n: u32)
    ensures
        run(f, events, n).0.source_types == f.source_types,
    decreases events.len(),
{
    if events.len() > 0 {
        let (g, _a, m) = transition(f, events[0], n);
        law_negotiation_moves_forward_in_order(f, events[0], n);
        lemma_run_keeps_source_types(g, events.drop_first(), m);
    }
}

proof fn lemma_count_after_add(n: u32, a: nat, b: nat)
    ensures
        count_after(count_after(n, a), b) == count_after(n, a + b),
    decreases b,
{
    if b > 0 {
        lemma_count_after_add(n, a, (b - 1) as nat);
    }
}

proof fn lemma_request_path_injective(sender: Seq<char>, t1: Seq<char>, t2: Seq<char>)
    requires
        t1 != t2,
    ensures
        request_path_text(sender, t1) != request_path_text(sender, t2),
{
    let p = "/org/freedesktop/portal/desktop/request/"@ + sender + "/"@;
    assert(request_path_text(sender, t1) =~= p + t1);
    assert(request_path_text(sender, t2) =~= p + t2);
    if p + t1 == p + t2 {
        assert((p + t1).skip(p.len() as int) =~= t1);
        assert((p + t2).skip(p.len() as int) =~= t2);
    }
}

/// A negotiation begun with the token counter at `n` subscribes its
/// `CreateSession` request on the path of token `n`, names the session with
/// token `n + 1`, and leaves the counter two further on; so a negotiation
/// begun later in the same process, after any number `k` of further tokens
/// (fewer than 2^32 in all), uses neither of these tokens nor this request
/// path again.
pub proof fn law_begin_issues_fresh_tokens(
    source_types: u32,
    sender: Seq<char>,
    n: u32,
    later_types: u32,
    k: nat,
)
    requires
        k + 4 < 0x1_0000_0000,
    ensures
        begin_transition(source_types, sender, n).1 == ActionView::Call(
            CallView::CreateSession {
                request_path: request_path_text(sender, token_text(n)),
                handle_token: token_text(n),
                session_handle_token: token_text(count_after(n, 1)),
            },
        ),
        begin_transition(source_types, sender, n).2 == count_after(n, 2),
        token_text(n) != token_text(count_after(n, 1)),
        ({
            let first = begin_transition(source_types, sender, n);
            let second = begin_transition(later_types, sender, count_after(first.2, k));
            match (first.1, second.1) {
                (
                    ActionView::Call(CallView::CreateSession { request_path: p1, handle_token: h1, session_handle_token: s1 }),
                    ActionView::Call(CallView::CreateSession { request_path: p2, handle_token: h2, session_handle_token: s2 }),
                ) => {
                    &&& h2 != h1 && h2 != s1 && s2 != h1 && s2 != s1
                    &&& p2 != p1
                },
                _ => false,
            }
        }),
{
    reveal_with_fuel(count_after, 3);
    law_counter_tokens_unique(n, 0, 1);
    lemma_count_after_add(n, 2, k);
    assert(count_after(count_after(n, 2), k) == count_after(n, 2 + k));
    let a = count_after(n, 2 + k);
    assert(count_after(n, 3 + k) == next_count(a));
    law_counter_tokens_unique(n, 0, 2 + k);
    law_counter_tokens_unique(n, 1, 2 + k);
    law_counter_tokens_unique(n, 0, 3 + k);
    law_counter_tokens_unique(n, 1, 3 + k);
    lemma_request_path_injective(sender, token_text(n), token_text(a));
}

} // verus!
