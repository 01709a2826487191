use mpv_bridge::ipc::{encode_command, ControlCommand};
use mpv_bridge::text::{
    push_int, push_seconds, strip_leading_question_marks, trim_trailing_slashes, u64_string,
};

#[test]
fn play_pause_and_stop_frames_are_exact() {
    assert_eq!(
        encode_command(&ControlCommand::Play),
        "{\"command\":[\"set_property\",\"pause\",false]}\n"
    );
    assert_eq!(
        encode_command(&ControlCommand::Pause),
        "{\"command\":[\"set_property\",\"pause\",true]}\n"
    );
    assert_eq!(encode_command(&ControlCommand::Stop), "{\"command\":[\"quit\"]}\n");
}

#[test]
fn seek_frames_render_milliseconds_as_seconds() {
    assert_eq!(
        encode_command(&ControlCommand::Seek(0)),
        "{\"command\":[\"seek\",0.000,\"absolute\"]}\n"
    );
    assert_eq!(
        encode_command(&ControlCommand::Seek(12345)),
        "{\"command\":[\"seek\",12.345,\"absolute\"]}\n"
    );
    assert_eq!(
        encode_command(&ControlCommand::Seek(-500)),
        "{\"command\":[\"seek\",-0.500,\"absolute\"]}\n"
    );
    assert_eq!(
        encode_command(&ControlCommand::Seek(i64::MIN)),
        "{\"command\":[\"seek\",-9223372036854775.808,\"absolute\"]}\n"
    );
}

#[test]
fn decimal_rendering_is_exact() {
    assert_eq!(u64_string(0), "0");
    assert_eq!(u64_string(7), "7");
    assert_eq!(u64_string(250), "250");
    assert_eq!(u64_string(u64::MAX), "18446744073709551615");
}

#[test]
fn signed_decimal_rendering_is_exact() {
    let mut out = String::new();
    push_int(&mut out, -1);
    push_int(&mut out, 0);
    push_int(&mut out, 42);
    push_int(&mut out, i64::MIN);
    assert_eq!(out, "-1042-9223372036854775808");
}

#[test]
fn seconds_rendering_pads_the_fraction() {
    let mut out = String::new();
    push_seconds(&mut out, 1);
    assert_eq!(out, "0.001");
    let mut out = String::new();
    push_seconds(&mut out, -59061);
    assert_eq!(out, "-59.061");
}

#[test]
fn trailing_slashes_are_trimmed() {
    assert_eq!(trim_trailing_slashes("http://h:32400///"), "http://h:32400");
    assert_eq!(trim_trailing_slashes("http://h:32400"), "http://h:32400");
    assert_eq!(trim_trailing_slashes(""), "");
    assert_eq!(trim_trailing_slashes("////"), "");
}

#[test]
fn leading_question_marks_are_stripped() {
    assert_eq!(strip_leading_question_marks("?type=1"), "type=1");
    assert_eq!(strip_leading_question_marks("??a?b"), "a?b");
    assert_eq!(strip_leading_question_marks("type=1"), "type=1");
    assert_eq!(strip_leading_question_marks(""), "");
}
