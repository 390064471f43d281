use gl_bootstrap::text::decimal_string;
use gl_bootstrap::window::{
    clear_color, frame_interval_nanos, ready_message, setup_opengl, window_config, window_title,
    Color, ContextAttributes, Profile, WindowConfig, FRAMES_PER_SECOND,
};

#[test]
fn window_is_640_by_480_and_titled() {
    assert_eq!(window_config(), WindowConfig { width: 640, height: 480, centered: true });
    assert_eq!(window_title(), "Rust OpenGL");
}

#[test]
fn canvas_is_cleared_to_white() {
    assert_eq!(clear_color(), Color { r: 255, g: 255, b: 255 });
}

#[test]
fn context_is_core_profile_version_3_1() {
    assert_eq!(
        setup_opengl(),
        ContextAttributes { profile: Profile::Core, major: 3, minor: 1 }
    );
}

#[test]
fn ready_message_gives_the_version() {
    assert_eq!(ready_message(3, 1), "OpenGL is ready (version 3.1)");
    assert_eq!(ready_message(4, 60), "OpenGL is ready (version 4.60)");
    assert_eq!(ready_message(0, 255), "OpenGL is ready (version 0.255)");
}

#[test]
fn decimal_string_writes_every_byte_as_std_does() {
    for n in 0..=u8::MAX {
        assert_eq!(decimal_string(n), n.to_string());
    }
    assert_eq!(decimal_string(0), "0");
    assert_eq!(decimal_string(9), "9");
    assert_eq!(decimal_string(10), "10");
    assert_eq!(decimal_string(100), "100");
    assert_eq!(decimal_string(255), "255");
}

#[test]
fn frame_interval_is_a_sixtieth_of_a_second() {
    assert_eq!(FRAMES_PER_SECOND, 60);
    assert_eq!(frame_interval_nanos(), 16_666_666);
    assert_eq!(frame_interval_nanos(), 1_000_000_000u32 / 60);
}
