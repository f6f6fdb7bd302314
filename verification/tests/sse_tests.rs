use plugin_stream::bus::RecvOutcome;
use plugin_stream::plugin::{MutationKind, PluginUpdate};
use plugin_stream::sse::{
    keep_alive_text, render_frame, render_number, sse_step, SseAction, KEEP_ALIVE_INTERVAL_SECS,
};

#[test]
fn create_frame_is_exact() {
    let frame = render_frame(&PluginUpdate { mutation_kind: MutationKind::Create, id: 1 });
    assert_eq!(frame, "<div>{\"id\":1,\"mutation_kind\":\"Create\"}</div>");
}

#[test]
fn delete_frame_is_exact() {
    let frame = render_frame(&PluginUpdate { mutation_kind: MutationKind::Delete, id: 42 });
    assert_eq!(frame, "<div>{\"id\":42,\"mutation_kind\":\"Delete\"}</div>");
}

#[test]
fn numbers_render_in_decimal() {
    assert_eq!(render_number(0), "0");
    assert_eq!(render_number(7), "7");
    assert_eq!(render_number(105), "105");
    assert_eq!(render_number(-1), "-1");
    assert_eq!(render_number(i32::MAX), "2147483647");
    assert_eq!(render_number(i32::MIN), "-2147483648");
}

#[test]
fn stream_frames_received_events() {
    let action = sse_step(RecvOutcome::Event(PluginUpdate {
        mutation_kind: MutationKind::Delete,
        id: 3,
    }));
    match action {
        SseAction::Frame(payload) => {
            assert_eq!(payload, "<div>{\"id\":3,\"mutation_kind\":\"Delete\"}</div>");
        }
        _ => panic!("a received event must be framed"),
    }
}

#[test]
fn stream_waits_while_idle() {
    assert!(matches!(sse_step(RecvOutcome::Empty), SseAction::Idle));
}

#[test]
fn stream_terminates_on_lag() {
    assert!(matches!(sse_step(RecvOutcome::Lagged), SseAction::Terminate));
}

#[test]
fn keep_alive_settings_are_fixed() {
    // An idle connection is kept open by a fixed-interval frame with a fixed
    // payload.
    assert_eq!(KEEP_ALIVE_INTERVAL_SECS, 600);
    assert_eq!(keep_alive_text(), "keep-alive-text");
}
