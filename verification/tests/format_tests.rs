use rustroarch::format::{
    environment_decision, CorePixelFormat, EmulatorPixelFormat, EnvironmentAction,
    ENVIRONMENT_GET_CAN_DUPE, ENVIRONMENT_SET_PIXEL_FORMAT,
};

#[test]
fn from_uint_names_the_closed_set() {
    assert_eq!(CorePixelFormat::from_uint(0), Some(CorePixelFormat::Argb1555));
    assert_eq!(CorePixelFormat::from_uint(1), Some(CorePixelFormat::Xrgb8888));
    assert_eq!(CorePixelFormat::from_uint(2), Some(CorePixelFormat::Rgb565));
}

#[test]
fn from_uint_rejects_unknown_codes() {
    assert_eq!(CorePixelFormat::from_uint(3), None);
    assert_eq!(CorePixelFormat::from_uint(u32::MAX), None);
}

#[test]
fn bytes_per_pixel_follows_the_format() {
    assert_eq!(CorePixelFormat::Argb1555.bytes_per_pixel(), 2);
    assert_eq!(CorePixelFormat::Rgb565.bytes_per_pixel(), 2);
    assert_eq!(CorePixelFormat::Xrgb8888.bytes_per_pixel(), 4);
}

#[test]
fn default_format_is_32_bit() {
    let format = EmulatorPixelFormat::default();
    assert_eq!(format.0, CorePixelFormat::Xrgb8888);
}

#[test]
fn environment_answers_can_dupe() {
    let decision = environment_decision(ENVIRONMENT_GET_CAN_DUPE, 0);
    assert_eq!(decision, (EnvironmentAction::AnswerCanDupe, false));
}

#[test]
fn environment_acknowledges_known_pixel_format() {
    let decision = environment_decision(ENVIRONMENT_SET_PIXEL_FORMAT, 2);
    assert_eq!(
        decision,
        (EnvironmentAction::SetPixelFormat(CorePixelFormat::Rgb565), true)
    );
}

#[test]
fn environment_flags_unknown_pixel_format_as_fatal() {
    let decision = environment_decision(ENVIRONMENT_SET_PIXEL_FORMAT, 9);
    assert_eq!(decision, (EnvironmentAction::InvalidPixelFormat, false));
}

#[test]
fn environment_leaves_other_commands_unhandled() {
    let decision = environment_decision(27, 1);
    assert_eq!(decision, (EnvironmentAction::Unhandled, false));
}
