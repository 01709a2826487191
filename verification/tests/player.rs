use mpv_bridge::error::PlayerError;
use mpv_bridge::ipc::ControlCommand;
use mpv_bridge::player::{init_player_state, PlayerState, TransportKind};
use mpv_bridge::supervisor::candidate_paths;

fn open_session(state: &mut PlayerState) -> String {
    let candidates = candidate_paths(&Some("/res".to_string()), "src-tauri/bin", "mpv");
    let present = vec![true, false, false];
    let plan = state
        .plan_open(&candidates, &present, "/tmp", "http://example/stream.mp4")
        .expect("open should resolve the present binary");
    let endpoint = plan.endpoint.clone();
    state
        .complete_open(plan.endpoint, None)
        .expect("successful spawn report must bind");
    endpoint
}

#[test]
fn open_spawns_with_fixed_flags_endpoint_and_url() {
    let mut state = init_player_state(TransportKind::UnixSocket);
    let candidates = candidate_paths(&Some("/res".to_string()), "src-tauri/bin", "mpv");
    assert_eq!(candidates, vec!["/res/mpv", "/res/bin/mpv", "src-tauri/bin/mpv"]);
    // Only the packaged "bin" subdirectory has the binary: the search order
    // must pick it, not the dev fallback.
    let present = vec![false, true, false];
    let plan = state
        .plan_open(&candidates, &present, "/tmp", "http://example/stream.mp4")
        .expect("a present binary must let open proceed");
    assert_eq!(plan.executable, "/res/bin/mpv");
    assert_eq!(plan.args.len(), 6);
    assert_eq!(plan.args[0], "--idle=yes");
    assert_eq!(plan.args[1], "--force-window=yes");
    assert_eq!(plan.args[2], "--pause=no");
    assert_eq!(plan.args[3], "--msg-level=all=v");
    assert_eq!(plan.args[4], format!("--input-ipc-server={}", plan.endpoint));
    assert_eq!(plan.args[5], "http://example/stream.mp4");
    assert!(plan.endpoint.starts_with("/tmp/mpv-"));
    assert!(plan.endpoint.ends_with(".sock"));
    assert!(state.complete_open(plan.endpoint, None).is_ok());
}

#[test]
fn open_fails_when_no_candidate_exists() {
    let mut state = init_player_state(TransportKind::UnixSocket);
    let candidates = candidate_paths(&Some("/res".to_string()), "src-tauri/bin", "mpv");
    let present = vec![false, false, false];
    let r = state.plan_open(&candidates, &present, "/tmp", "http://example/stream.mp4");
    match r {
        Err(PlayerError::ExecutableNotFound) => {}
        _ => panic!("open without any candidate must fail with ExecutableNotFound"),
    }
}

#[test]
fn open_without_resource_dir_uses_dev_fallback() {
    let candidates = candidate_paths(&None, "src-tauri/bin", "mpv");
    assert_eq!(candidates, vec!["src-tauri/bin/mpv"]);
}

#[test]
fn pause_before_open_is_channel_unavailable() {
    let mut state = init_player_state(TransportKind::UnixSocket);
    match state.control(&ControlCommand::Pause) {
        Err(PlayerError::ChannelUnavailable) => {}
        _ => panic!("pause on a fresh state holder must fail with ChannelUnavailable"),
    }
}

#[test]
fn play_and_seek_before_open_are_channel_unavailable() {
    let mut state = init_player_state(TransportKind::UnixSocket);
    assert!(matches!(
        state.control(&ControlCommand::Play),
        Err(PlayerError::ChannelUnavailable)
    ));
    assert!(matches!(
        state.control(&ControlCommand::Seek(1000)),
        Err(PlayerError::ChannelUnavailable)
    ));
    assert!(matches!(
        state.control(&ControlCommand::Stop),
        Err(PlayerError::ChannelUnavailable)
    ));
}

#[test]
fn stop_after_open_encodes_quit_to_bound_endpoint_once() {
    let mut state = init_player_state(TransportKind::UnixSocket);
    let endpoint = open_session(&mut state);
    let req = state
        .control(&ControlCommand::Stop)
        .expect("stop after open must succeed");
    assert_eq!(req.endpoint, endpoint);
    assert_eq!(req.frame, "{\"command\":[\"quit\"]}\n");
}

#[test]
fn stop_unbinds_the_session_until_the_next_open() {
    let mut state = init_player_state(TransportKind::UnixSocket);
    let first = open_session(&mut state);
    let req = state
        .control(&ControlCommand::Stop)
        .expect("stop after open must succeed");
    assert_eq!(req.endpoint, first);
    // The session is closed: every further command must fail until a new open.
    assert!(matches!(
        state.control(&ControlCommand::Play),
        Err(PlayerError::ChannelUnavailable)
    ));
    assert!(matches!(
        state.control(&ControlCommand::Seek(1000)),
        Err(PlayerError::ChannelUnavailable)
    ));
    assert!(matches!(
        state.control(&ControlCommand::Stop),
        Err(PlayerError::ChannelUnavailable)
    ));
    // A fresh open binds a new session and commands flow again.
    let second = open_session(&mut state);
    let req = state
        .control(&ControlCommand::Play)
        .expect("a fresh open must restore the channel");
    assert_eq!(req.endpoint, second);
}

#[test]
fn transport_names_are_stable() {
    assert_eq!(TransportKind::UnixSocket.name(), "mpv-ipc");
    assert_eq!(TransportKind::NamedPipe.name(), "mpv-pipe");
    assert_eq!(TransportKind::LibraryBinding.name(), "libmpv");
}

#[test]
fn commands_after_open_are_delivered_in_submission_order() {
    let mut state = init_player_state(TransportKind::UnixSocket);
    let endpoint = open_session(&mut state);
    let submitted = vec![
        ControlCommand::Play,
        ControlCommand::Seek(1500),
        ControlCommand::Pause,
        ControlCommand::Seek(0),
    ];
    let mut frames: Vec<String> = Vec::new();
    for cmd in &submitted {
        let req = state.control(cmd).expect("bound channel must accept commands");
        assert_eq!(req.endpoint, endpoint);
        frames.push(req.frame);
    }
    assert_eq!(
        frames,
        vec![
            "{\"command\":[\"set_property\",\"pause\",false]}\n",
            "{\"command\":[\"seek\",1.500,\"absolute\"]}\n",
            "{\"command\":[\"set_property\",\"pause\",true]}\n",
            "{\"command\":[\"seek\",0.000,\"absolute\"]}\n",
        ]
    );
}

#[test]
fn seek_out_of_range_positions_are_forwarded_unvalidated() {
    let mut state = init_player_state(TransportKind::UnixSocket);
    open_session(&mut state);
    let req = state
        .control(&ControlCommand::Seek(-5250))
        .expect("a negative position must still be forwarded");
    assert_eq!(req.frame, "{\"command\":[\"seek\",-5.250,\"absolute\"]}\n");
    let req = state
        .control(&ControlCommand::Seek(i64::MAX))
        .expect("an enormous position must still be forwarded");
    assert_eq!(
        req.frame,
        "{\"command\":[\"seek\",9223372036854775.807,\"absolute\"]}\n"
    );
}

#[test]
fn successive_opens_get_distinct_endpoints() {
    let mut state = init_player_state(TransportKind::UnixSocket);
    let first = open_session(&mut state);
    let second = open_session(&mut state);
    assert_ne!(first, second);
    // The token portion is 32 hexadecimal characters: "/tmp" + "/mpv-" + 32
    // + "-" + serial digits + ".sock".
    assert_eq!(first.len(), 4 + 5 + 32 + 1 + 1 + 5);
}

#[test]
fn open_replaces_previous_binding() {
    let mut state = init_player_state(TransportKind::UnixSocket);
    let first = open_session(&mut state);
    let second = open_session(&mut state);
    let req = state
        .control(&ControlCommand::Play)
        .expect("bound channel must accept commands");
    assert_ne!(req.endpoint, first);
    assert_eq!(req.endpoint, second);
}

#[test]
fn failed_spawn_keeps_previous_binding_and_reports_os_error() {
    let mut state = init_player_state(TransportKind::UnixSocket);
    let first = open_session(&mut state);
    let candidates = candidate_paths(&Some("/res".to_string()), "src-tauri/bin", "mpv");
    let present = vec![true, false, false];
    let plan = state
        .plan_open(&candidates, &present, "/tmp", "http://example/other.mp4")
        .expect("planning must succeed with a present binary");
    let r = state.complete_open(plan.endpoint, Some("permission denied".to_string()));
    match r {
        Err(e @ PlayerError::SpawnFailed(_)) => {
            assert_eq!(e.message(), "failed to spawn player: permission denied");
        }
        _ => panic!("a reported spawn error must surface as SpawnFailed"),
    }
    let req = state
        .control(&ControlCommand::Play)
        .expect("the previous binding must survive a failed open");
    assert_eq!(req.endpoint, first);
}

#[test]
fn pipe_transport_fails_fast_with_unsupported() {
    let mut state = init_player_state(TransportKind::NamedPipe);
    let candidates = candidate_paths(&None, "src-tauri/bin", "mpv.exe");
    let present = vec![true];
    assert!(matches!(
        state.plan_open(&candidates, &present, "/tmp", "http://example/stream.mp4"),
        Err(PlayerError::UnsupportedOnPlatform)
    ));
    assert!(matches!(
        state.control(&ControlCommand::Play),
        Err(PlayerError::UnsupportedOnPlatform)
    ));
}

#[test]
fn library_transport_fails_fast_with_unsupported() {
    let mut state = init_player_state(TransportKind::LibraryBinding);
    assert!(matches!(
        state.control(&ControlCommand::Pause),
        Err(PlayerError::UnsupportedOnPlatform)
    ));
}

#[test]
fn state_holder_reports_its_transport_kind() {
    let state = init_player_state(TransportKind::UnixSocket);
    assert_eq!(state.kind(), TransportKind::UnixSocket);
}

#[test]
fn error_messages_are_stable() {
    assert_eq!(
        PlayerError::ExecutableNotFound.message(),
        "player executable not found in any search location"
    );
    assert_eq!(
        PlayerError::SpawnFailed("boom".to_string()).message(),
        "failed to spawn player: boom"
    );
    assert_eq!(
        PlayerError::ChannelUnavailable.message(),
        "no control channel is bound; open a stream first"
    );
    assert_eq!(
        PlayerError::TransportIO("broken pipe".to_string()).message(),
        "control channel write failed: broken pipe"
    );
    assert_eq!(
        PlayerError::UnsupportedOnPlatform.message(),
        "transport not implemented on this platform"
    );
}
