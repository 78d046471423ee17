use native_host::codec::{decode_request, encode_response, DecodeError};
use native_host::frame::encode_frame;
use native_host::host::{step, HostCmd, HostEvent, HostState};
use native_host::protocol::{handle_ping, Request, Response};
use native_host::save::{dispatch, save_parent, save_start, SaveAction};

fn pong() -> Response {
    Response::Pong { success: true }
}

#[test]
fn ping_always_answers_success_true() {
    assert_eq!(handle_ping(), pong());
    assert_eq!(handle_ping(), pong());
    assert_eq!(encode_response(&handle_ping()), b"{\"success\":true}".to_vec());
}

#[test]
fn relative_path_is_rejected_with_exact_message() {
    let a = save_start(&"relative/path.txt".to_string());
    assert_eq!(
        a,
        SaveAction::Respond(Response::SaveResult {
            success: false,
            full_path: None,
            error: Some("Path must be absolute".to_string()),
        })
    );
    let b = save_start(&"".to_string());
    assert!(matches!(b, SaveAction::Respond(_)));
}

#[test]
fn absolute_path_asks_for_its_parent_directory() {
    let a = save_start(&"/tmp/x/y.txt".to_string());
    assert_eq!(a, SaveAction::EnsureDir { parent: "/tmp/x".to_string() });
}

#[test]
fn parent_directories_are_computed() {
    assert_eq!(save_parent(&"/tmp/x/y.txt".to_string()), Some("/tmp/x".to_string()));
    assert_eq!(save_parent(&"/a".to_string()), Some("/".to_string()));
    assert_eq!(save_parent(&"/".to_string()), None);
    assert_eq!(save_parent(&"/a/b///".to_string()), Some("/a".to_string()));
}

#[test]
fn dispatch_routes_ping_and_save() {
    assert_eq!(dispatch(&Request::Ping), SaveAction::Respond(pong()));
    let req = Request::Save { path: "/d/f".to_string(), content: "c".to_string() };
    assert_eq!(dispatch(&req), SaveAction::EnsureDir { parent: "/d".to_string() });
}

#[test]
fn input_end_at_frame_boundary_stops_without_response() {
    let r = step(HostState::AwaitPrefix, HostEvent::InputClosed);
    assert_eq!(r, (HostState::Stopped, HostCmd::Exit));
}

#[test]
fn input_end_mid_frame_stops_without_response() {
    let r = step(HostState::AwaitPayload, HostEvent::InputClosed);
    assert_eq!(r, (HostState::Stopped, HostCmd::Exit));
}

#[test]
fn undecodable_payload_is_fatal() {
    let r = step(
        HostState::AwaitPayload,
        HostEvent::Decoded(Err(DecodeError::MalformedJson)),
    );
    assert_eq!(r, (HostState::Stopped, HostCmd::Exit));
}

#[test]
fn short_prefix_is_fatal() {
    let r = step(HostState::AwaitPrefix, HostEvent::PrefixRead(vec![1u8, 2]));
    assert_eq!(r, (HostState::Stopped, HostCmd::Exit));
}

#[test]
fn failed_send_stops_the_session() {
    let r = step(HostState::Sending, HostEvent::Sent(false));
    assert_eq!(r, (HostState::Stopped, HostCmd::Exit));
}

#[test]
fn dir_failure_is_answered_as_data() {
    let s = HostState::EnsuringDir { path: "/a/b".to_string(), content: "c".to_string() };
    let r = step(s, HostEvent::DirResult(Some("denied".to_string())));
    assert_eq!(
        r.1,
        HostCmd::Send(Response::SaveResult {
            success: false,
            full_path: None,
            error: Some("Failed to create directories: denied".to_string()),
        })
    );
    assert_eq!(r.0, HostState::Sending);
}

#[test]
fn write_failure_is_answered_as_data() {
    let s = HostState::Writing { path: "/a/b".to_string() };
    let r = step(s, HostEvent::WriteResult(Some("disk full".to_string())));
    assert_eq!(
        r.1,
        HostCmd::Send(Response::SaveResult {
            success: false,
            full_path: None,
            error: Some("Failed to write file: disk full".to_string()),
        })
    );
}

#[test]
fn root_path_needs_no_parent() {
    let req = Request::Save { path: "/".to_string(), content: "c".to_string() };
    let r = step(HostState::AwaitPayload, HostEvent::Decoded(Ok(req)));
    assert_eq!(r.0, HostState::Writing { path: "/".to_string() });
    assert_eq!(r.1, HostCmd::WriteFile("/".to_string(), "c".to_string()));
}

#[test]
fn ping_scenario_end_to_end() {
    let input_payload: Vec<u8> = b"{\"action\":\"ping\"}".to_vec();
    let input_frame = encode_frame(&input_payload).unwrap();

    let r = step(
        HostState::AwaitPrefix,
        HostEvent::PrefixRead(input_frame[0..4].to_vec()),
    );
    assert_eq!(r, (HostState::AwaitPayload, HostCmd::ReadPayload(17)));

    let decoded = decode_request(&input_frame[4..]);
    let r = step(HostState::AwaitPayload, HostEvent::Decoded(decoded));
    assert_eq!(r.0, HostState::Sending);
    let resp = match r.1 {
        HostCmd::Send(resp) => resp,
        other => panic!("expected a send, got {:?}", other),
    };

    let out_payload = encode_response(&resp);
    let out_frame = encode_frame(&out_payload).unwrap();
    let mut expected: Vec<u8> = vec![16, 0, 0, 0];
    expected.extend_from_slice(b"{\"success\":true}");
    assert_eq!(out_frame, expected);

    let r = step(HostState::Sending, HostEvent::Sent(true));
    assert_eq!(r, (HostState::AwaitPrefix, HostCmd::ReadPrefix));
}

#[test]
fn save_scenario_end_to_end() {
    let input_payload: Vec<u8> =
        b"{\"action\":\"save\",\"path\":\"/tmp/x/y.txt\",\"content\":\"hi\"}".to_vec();
    let input_frame = encode_frame(&input_payload).unwrap();

    let r = step(
        HostState::AwaitPrefix,
        HostEvent::PrefixRead(input_frame[0..4].to_vec()),
    );
    assert_eq!(
        r,
        (HostState::AwaitPayload, HostCmd::ReadPayload(input_payload.len() as u32))
    );

    let decoded = decode_request(&input_frame[4..]);
    let r = step(HostState::AwaitPayload, HostEvent::Decoded(decoded));
    assert_eq!(r.1, HostCmd::EnsureDir("/tmp/x".to_string()));

    let r = step(r.0, HostEvent::DirResult(None));
    assert_eq!(
        r.1,
        HostCmd::WriteFile("/tmp/x/y.txt".to_string(), "hi".to_string())
    );

    let r = step(r.0, HostEvent::WriteResult(None));
    let resp = match r.1 {
        HostCmd::Send(resp) => resp,
        other => panic!("expected a send, got {:?}", other),
    };
    assert_eq!(
        encode_response(&resp),
        b"{\"success\":true,\"full_path\":\"/tmp/x/y.txt\"}".to_vec()
    );

    let r = step(HostState::Sending, HostEvent::Sent(true));
    assert_eq!(r, (HostState::AwaitPrefix, HostCmd::ReadPrefix));
}

#[test]
fn second_save_is_independent_of_the_first() {
    // Two saves to the same path with different content: each cycle starts
    // from the same state and the write command carries exactly the current
    // request's content.
    for content in ["first", "second"] {
        let req = Request::Save { path: "/tmp/f".to_string(), content: content.to_string() };
        let r = step(HostState::AwaitPayload, HostEvent::Decoded(Ok(req)));
        let r = step(r.0, HostEvent::DirResult(None));
        assert_eq!(
            r.1,
            HostCmd::WriteFile("/tmp/f".to_string(), content.to_string())
        );
        let r = step(r.0, HostEvent::WriteResult(None));
        assert_eq!(r.0, HostState::Sending);
        let r = step(r.0, HostEvent::Sent(true));
        assert_eq!(r, (HostState::AwaitPrefix, HostCmd::ReadPrefix));
    }
}
