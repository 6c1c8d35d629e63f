use gif_that_for_you::portal::{
    portal_error, request_path, sender_segment_of, session_bus_error, valid_object_path,
    FlowStep, PortalAction, PortalCall, PortalEvent, PortalFlow, TokenCounter,
};
use gif_that_for_you::variant::{lookup_str, parse_streams, Variant};

fn s(t: &str) -> String {
    t.to_string()
}

fn entry(key: &str, value: Variant) -> Variant {
    Variant::Container(vec![Variant::Str(s(key)), Variant::Boxed(Box::new(value))])
}

fn signal(code: u32, results: Variant) -> PortalEvent {
    PortalEvent::Signal(Variant::Container(vec![Variant::U32(code), results]))
}

fn session_results(handle: &str) -> Variant {
    Variant::Dict(vec![entry("session_handle", Variant::Str(s(handle)))])
}

fn start_results(node: u32) -> Variant {
    let stream = Variant::Container(vec![Variant::U32(node), Variant::Dict(vec![])]);
    Variant::Dict(vec![entry("streams", Variant::Container(vec![stream]))])
}

fn fail_message(a: PortalAction) -> String {
    match a {
        PortalAction::Fail { message } => message,
        _ => panic!("expected a failure"),
    }
}

#[test]
fn tokens_count_up_from_one() {
    let mut c = TokenCounter::new();
    assert_eq!(c.issue(), "gif_that_for_you_1");
    assert_eq!(c.issue(), "gif_that_for_you_2");
    assert_eq!(c.issue(), "gif_that_for_you_3");
}

#[test]
fn tokens_of_one_counter_are_distinct() {
    let mut c = TokenCounter::new();
    let tokens: Vec<String> = (0..200).map(|_| c.issue()).collect();
    for i in 0..tokens.len() {
        for j in (i + 1)..tokens.len() {
            assert_ne!(tokens[i], tokens[j]);
        }
    }
    assert_eq!(tokens[9], "gif_that_for_you_10");
    assert_eq!(tokens[10], "gif_that_for_you_11");
}

#[test]
fn sender_segment_replaces_dots_and_drops_colons() {
    assert_eq!(sender_segment_of(&Some(s(":1.42"))), "1_42");
    assert_eq!(sender_segment_of(&Some(s("org.example.App"))), "org_example_App");
    assert_eq!(sender_segment_of(&None), "");
}

#[test]
fn request_path_names_sender_and_token() {
    assert_eq!(
        request_path(&s("1_42"), &s("gif_that_for_you_7")),
        "/org/freedesktop/portal/desktop/request/1_42/gif_that_for_you_7"
    );
}

#[test]
fn object_paths_are_checked_as_dbus_does() {
    assert!(valid_object_path(&s("/")));
    assert!(valid_object_path(&s("/org/freedesktop/portal/desktop/session/1_42/gif_that_for_you_2")));
    assert!(valid_object_path(&s("/A_z/09")));
    assert!(!valid_object_path(&s("")));
    assert!(!valid_object_path(&s("org/freedesktop")));
    assert!(!valid_object_path(&s("/org/")));
    assert!(!valid_object_path(&s("//")));
    assert!(!valid_object_path(&s("/org//portal")));
    assert!(!valid_object_path(&s("/org/free-desktop")));
    assert!(!valid_object_path(&s("/org.freedesktop")));
    // the C library reads up to the first NUL
    assert!(valid_object_path(&s("/org\0-x")));
    assert!(!valid_object_path(&s("\0/org")));
}

#[test]
fn portal_error_names_each_code() {
    assert_eq!(portal_error("CreateSession", 1), "Portal: user cancelled at CreateSession (1)");
    assert_eq!(portal_error("Start", 2), "Portal: Start failed: Other error (2)");
    assert_eq!(portal_error("SelectSources", 3), "Portal: SelectSources failed: Not found (3)");
    assert_eq!(portal_error("Start", 42), "Portal: Start failed (response code 42)");
    assert_eq!(portal_error("Start", 4294967295), "Portal: Start failed (response code 4294967295)");
}

#[test]
fn session_bus_error_message() {
    assert_eq!(session_bus_error("no bus"), "Failed to connect to session bus: no bus");
}

#[test]
fn negotiation_runs_the_four_steps_in_order() {
    let mut tokens = TokenCounter::new();
    let (mut flow, a) = PortalFlow::begin(3, &Some(s(":1.42")), &mut tokens);
    assert_eq!(flow.step(), FlowStep::CreateSession);
    match a {
        PortalAction::Call(PortalCall::CreateSession { request_path, handle_token, session_handle_token }) => {
            assert_eq!(request_path, "/org/freedesktop/portal/desktop/request/1_42/gif_that_for_you_1");
            assert_eq!(handle_token, "gif_that_for_you_1");
            assert_eq!(session_handle_token, "gif_that_for_you_2");
        }
        _ => panic!("expected CreateSession"),
    }
    let handle = "/org/freedesktop/portal/desktop/session/1_42/gif_that_for_you_2";
    let a = flow.advance(signal(0, session_results(handle)), &mut tokens);
    assert_eq!(flow.step(), FlowStep::SelectSources);
    match a {
        PortalAction::Call(PortalCall::SelectSources { request_path, session_handle, handle_token, types, cursor_mode }) => {
            assert_eq!(request_path, "/org/freedesktop/portal/desktop/request/1_42/gif_that_for_you_3");
            assert_eq!(session_handle, handle);
            assert_eq!(handle_token, "gif_that_for_you_3");
            assert_eq!(types, 3);
            assert_eq!(cursor_mode, 2);
        }
        _ => panic!("expected SelectSources"),
    }
    let a = flow.advance(signal(0, Variant::Dict(vec![])), &mut tokens);
    assert_eq!(flow.step(), FlowStep::Start);
    match a {
        PortalAction::Call(PortalCall::Start { request_path, session_handle, handle_token, parent_window }) => {
            assert_eq!(request_path, "/org/freedesktop/portal/desktop/request/1_42/gif_that_for_you_4");
            assert_eq!(session_handle, handle);
            assert_eq!(handle_token, "gif_that_for_you_4");
            assert_eq!(parent_window, "");
        }
        _ => panic!("expected Start"),
    }
    let a = flow.advance(signal(0, start_results(57)), &mut tokens);
    assert_eq!(flow.step(), FlowStep::OpenRemote { node_id: 57 });
    match a {
        PortalAction::Call(PortalCall::OpenPipeWireRemote { session_handle }) => {
            assert_eq!(session_handle, handle)
        }
        _ => panic!("expected OpenPipeWireRemote"),
    }
    let a = flow.advance(PortalEvent::RemoteHandle(0), &mut tokens);
    assert!(matches!(a, PortalAction::TakeFd { index: 0 }));
    assert_eq!(flow.step(), FlowStep::TakeFd { node_id: 57 });
    let a = flow.advance(PortalEvent::FdTaken(true), &mut tokens);
    assert!(matches!(a, PortalAction::Succeed { node_id: 57 }));
    assert_eq!(flow.step(), FlowStep::Done);
    // a finished negotiation ignores everything
    let a = flow.advance(signal(1, Variant::Dict(vec![])), &mut tokens);
    assert!(matches!(a, PortalAction::Ignore));
    assert_eq!(flow.step(), FlowStep::Done);
    // the counter moved on by one token per subscribed request
    assert_eq!(tokens.issue(), "gif_that_for_you_5");
}

#[test]
fn cancelled_request_fails_and_ends_negotiation() {
    let mut tokens = TokenCounter::new();
    let (mut flow, _) = PortalFlow::begin(1, &None, &mut tokens);
    let a = flow.advance(signal(1, Variant::Dict(vec![])), &mut tokens);
    assert_eq!(fail_message(a), "Portal: user cancelled at CreateSession (1)");
    assert_eq!(flow.step(), FlowStep::Failed);
    let a = flow.advance(signal(0, session_results("/s")), &mut tokens);
    assert!(matches!(a, PortalAction::Ignore));
    assert_eq!(flow.step(), FlowStep::Failed);
}

#[test]
fn rejected_select_sources_and_start_fail_with_their_codes() {
    let mut tokens = TokenCounter::new();
    let (mut flow, _) = PortalFlow::begin(2, &None, &mut tokens);
    flow.advance(signal(0, session_results("/s")), &mut tokens);
    let a = flow.advance(signal(3, Variant::Dict(vec![])), &mut tokens);
    assert_eq!(fail_message(a), "Portal: SelectSources failed: Not found (3)");

    let (mut flow, _) = PortalFlow::begin(2, &None, &mut tokens);
    flow.advance(signal(0, session_results("/s")), &mut tokens);
    flow.advance(signal(0, Variant::Dict(vec![])), &mut tokens);
    let a = flow.advance(signal(9, Variant::Dict(vec![])), &mut tokens);
    assert_eq!(fail_message(a), "Portal: Start failed (response code 9)");
}

#[test]
fn response_code_that_is_not_a_number_counts_as_other_error() {
    let mut tokens = TokenCounter::new();
    let (mut flow, _) = PortalFlow::begin(1, &None, &mut tokens);
    let ev = PortalEvent::Signal(Variant::Container(vec![Variant::Str(s("0")), Variant::Dict(vec![])]));
    let a = flow.advance(ev, &mut tokens);
    assert_eq!(fail_message(a), "Portal: CreateSession failed: Other error (2)");
}

#[test]
fn signal_with_fewer_than_two_arguments_is_ignored() {
    let mut tokens = TokenCounter::new();
    let (mut flow, _) = PortalFlow::begin(1, &None, &mut tokens);
    let a = flow.advance(PortalEvent::Signal(Variant::Container(vec![Variant::U32(0)])), &mut tokens);
    assert!(matches!(a, PortalAction::Ignore));
    assert_eq!(flow.step(), FlowStep::CreateSession);
}

#[test]
fn missing_session_handle_fails() {
    let mut tokens = TokenCounter::new();
    let (mut flow, _) = PortalFlow::begin(1, &None, &mut tokens);
    let wrong_type = Variant::Dict(vec![entry("session_handle", Variant::U32(5))]);
    let a = flow.advance(signal(0, wrong_type), &mut tokens);
    assert_eq!(fail_message(a), "Portal: missing session_handle in CreateSession response");
}

#[test]
fn invalid_session_handle_fails_before_select_sources() {
    let mut tokens = TokenCounter::new();
    let (mut flow, _) = PortalFlow::begin(1, &None, &mut tokens);
    let a = flow.advance(signal(0, session_results("not-a-path")), &mut tokens);
    assert_eq!(
        fail_message(a),
        "Portal: invalid session_handle in SelectSources: Invalid object path"
    );
    assert_eq!(flow.step(), FlowStep::Failed);
}

#[test]
fn boxed_response_dictionary_is_unwrapped() {
    let mut tokens = TokenCounter::new();
    let (mut flow, _) = PortalFlow::begin(1, &None, &mut tokens);
    let boxed = Variant::Boxed(Box::new(session_results("/org/x")));
    let a = flow.advance(signal(0, boxed), &mut tokens);
    match a {
        PortalAction::Call(PortalCall::SelectSources { session_handle, .. }) => {
            assert_eq!(session_handle, "/org/x")
        }
        _ => panic!("expected SelectSources"),
    }
}

#[test]
fn start_without_streams_fails() {
    let mut tokens = TokenCounter::new();
    let (mut flow, _) = PortalFlow::begin(1, &None, &mut tokens);
    flow.advance(signal(0, session_results("/s")), &mut tokens);
    flow.advance(signal(0, Variant::Dict(vec![])), &mut tokens);
    let a = flow.advance(signal(0, Variant::Dict(vec![entry("other", Variant::U32(1))])), &mut tokens);
    assert_eq!(fail_message(a), "Portal: no streams in Start response");
}

#[test]
fn method_call_failure_names_the_method() {
    let mut tokens = TokenCounter::new();
    let (mut flow, _) = PortalFlow::begin(1, &None, &mut tokens);
    flow.advance(signal(0, session_results("/s")), &mut tokens);
    let a = flow.advance(PortalEvent::CallFailed(s("GDBus.Error: denied")), &mut tokens);
    assert_eq!(fail_message(a), "Portal: SelectSources method call failed: GDBus.Error: denied");
}

fn flow_at_open_remote(tokens: &mut TokenCounter) -> PortalFlow {
    let (mut flow, _) = PortalFlow::begin(1, &None, tokens);
    flow.advance(signal(0, session_results("/s")), tokens);
    flow.advance(signal(0, Variant::Dict(vec![])), tokens);
    flow.advance(signal(0, start_results(3)), tokens);
    assert_eq!(flow.step(), FlowStep::OpenRemote { node_id: 3 });
    flow
}

#[test]
fn open_remote_failures() {
    let mut tokens = TokenCounter::new();
    let mut flow = flow_at_open_remote(&mut tokens);
    let a = flow.advance(PortalEvent::RemoteFailed(s("timeout")), &mut tokens);
    assert_eq!(fail_message(a), "Portal: OpenPipeWireRemote failed: timeout");

    let mut flow = flow_at_open_remote(&mut tokens);
    let a = flow.advance(PortalEvent::RemoteNoFdList, &mut tokens);
    assert_eq!(fail_message(a), "Portal: no fd list in OpenPipeWireRemote");

    let mut flow = flow_at_open_remote(&mut tokens);
    let a = flow.advance(PortalEvent::RemoteHandle(-1), &mut tokens);
    assert_eq!(fail_message(a), "Portal: invalid fd index in OpenPipeWireRemote");

    let mut flow = flow_at_open_remote(&mut tokens);
    flow.advance(PortalEvent::RemoteHandle(2), &mut tokens);
    let a = flow.advance(PortalEvent::FdTaken(false), &mut tokens);
    assert_eq!(fail_message(a), "Portal: no file descriptor in OpenPipeWireRemote");
}

#[test]
fn events_out_of_turn_are_ignored() {
    let mut tokens = TokenCounter::new();
    let (mut flow, _) = PortalFlow::begin(1, &None, &mut tokens);
    assert!(matches!(flow.advance(PortalEvent::RemoteHandle(0), &mut tokens), PortalAction::Ignore));
    assert!(matches!(flow.advance(PortalEvent::FdTaken(true), &mut tokens), PortalAction::Ignore));
    assert!(matches!(flow.advance(PortalEvent::RemoteNoFdList, &mut tokens), PortalAction::Ignore));
    assert_eq!(flow.step(), FlowStep::CreateSession);
}

#[test]
fn dictionary_lookup_takes_last_entry_and_needs_a_string() {
    let d = Variant::Dict(vec![
        entry("session_handle", Variant::Str(s("/first"))),
        entry("session_handle", Variant::Str(s("/second"))),
    ]);
    assert_eq!(lookup_str(&d, "session_handle"), Some(s("/second")));
    assert_eq!(lookup_str(&d, "missing"), None);
    let d = Variant::Dict(vec![entry("k", Variant::U32(1))]);
    assert_eq!(lookup_str(&d, "k"), None);
}

#[test]
fn streams_are_read_from_the_first_stream() {
    let two = Variant::Dict(vec![entry(
        "streams",
        Variant::Container(vec![
            Variant::Container(vec![Variant::U32(11), Variant::Dict(vec![])]),
            Variant::Container(vec![Variant::U32(12), Variant::Dict(vec![])]),
        ]),
    )]);
    assert_eq!(parse_streams(&two), Some(11));
    let empty = Variant::Dict(vec![entry("streams", Variant::Container(vec![]))]);
    assert_eq!(parse_streams(&empty), None);
    let missing = Variant::Dict(vec![entry("restore_token", Variant::Str(s("x")))]);
    assert_eq!(parse_streams(&missing), None);
    let not_u32 = Variant::Dict(vec![entry(
        "streams",
        Variant::Container(vec![Variant::Container(vec![Variant::Str(s("11"))])]),
    )]);
    assert_eq!(parse_streams(&not_u32), None);
    let boxed = Variant::Boxed(Box::new(start_results(99)));
    assert_eq!(parse_streams(&boxed), Some(99));
}

#[test]
fn malformed_responses_are_recognised() {
    let mut tokens = TokenCounter::new();
    let (mut flow, _) = PortalFlow::begin(1, &None, &mut tokens);
    // signal parameters must be a container
    assert!(!flow.can_read(&PortalEvent::Signal(Variant::U32(0))));
    // a successful CreateSession response must carry a vardict
    assert!(!flow.can_read(&signal(0, Variant::Container(vec![]))));
    assert!(flow.can_read(&signal(0, Variant::Boxed(Box::new(Variant::Dict(vec![]))))));
    // a rejection is readable whatever its results
    assert!(flow.can_read(&signal(1, Variant::Scalar)));
    assert!(flow.can_read(&PortalEvent::CallFailed(s("x"))));
    flow.advance(signal(0, session_results("/s")), &mut tokens);
    flow.advance(signal(0, Variant::Dict(vec![])), &mut tokens);
    assert_eq!(flow.step(), FlowStep::Start);
    // the streams of a Start response must be a container of containers
    let bad_streams = Variant::Dict(vec![entry("streams", Variant::Str(s("x")))]);
    assert!(!flow.can_read(&signal(0, bad_streams)));
    let bad_first = Variant::Dict(vec![entry("streams", Variant::Container(vec![Variant::U32(1)]))]);
    assert!(!flow.can_read(&signal(0, bad_first)));
    assert!(flow.can_read(&signal(0, start_results(4))));
    assert!(flow.can_read(&signal(0, Variant::Dict(vec![]))));
}

#[test]
fn stream_is_handed_over_after_three_accepted_requests() {
    // a run with noise: ignored events between the answers
    let mut tokens = TokenCounter::new();
    let (mut flow, _) = PortalFlow::begin(2, &Some(s(":1.7")), &mut tokens);
    let handle = "/org/freedesktop/portal/desktop/session/1_7/gif_that_for_you_2";
    let events = vec![
        PortalEvent::FdTaken(true),
        signal(0, session_results(handle)),
        PortalEvent::Signal(Variant::Container(vec![Variant::U32(0)])),
        signal(0, Variant::Dict(vec![])),
        PortalEvent::RemoteHandle(3),
        signal(0, start_results(9)),
        PortalEvent::RemoteHandle(3),
        PortalEvent::FdTaken(true),
    ];
    let mut accepted = Vec::new();
    for e in events {
        let before = flow.step();
        let zero = matches!(&e, PortalEvent::Signal(Variant::Container(c)) if c.len() >= 2 && matches!(c[0], Variant::U32(0)));
        let a = flow.advance(e, &mut tokens);
        if zero && !matches!(a, PortalAction::Ignore | PortalAction::Fail { .. }) {
            accepted.push(before);
        }
    }
    assert_eq!(flow.step(), FlowStep::Done);
    assert_eq!(accepted, vec![FlowStep::CreateSession, FlowStep::SelectSources, FlowStep::Start]);
}
