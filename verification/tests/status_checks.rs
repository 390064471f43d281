use gl_bootstrap::diagnostics::{
    check_compile_errors, failure, open_failure, read_failure, status_is_success, CheckError,
    Phase, INFO_LOG_CAPACITY,
};
use gl_bootstrap::shader::{SourceType, Stage};

#[test]
fn true_status_is_success() {
    assert!(status_is_success(1));
    assert!(status_is_success(i32::from(gl::TRUE)));
    assert!(!status_is_success(i32::from(gl::FALSE)));
    assert!(!status_is_success(2));
    assert!(!status_is_success(-1));
}

#[test]
fn shaders_are_compiled_and_programs_are_linked() {
    assert_eq!(SourceType::VertexShader.phase(), Phase::Compile);
    assert_eq!(SourceType::FragmentShader.phase(), Phase::Compile);
    assert_eq!(SourceType::Program.phase(), Phase::Link);
}

#[test]
fn phases_ask_for_the_status_parameters_of_the_bindings() {
    assert_eq!(Phase::Compile.status_parameter(), gl::COMPILE_STATUS);
    assert_eq!(Phase::Link.status_parameter(), gl::LINK_STATUS);
    assert_eq!(Phase::Compile.status_parameter(), 0x8B81);
    assert_eq!(Phase::Link.status_parameter(), 0x8B82);
}

#[test]
fn check_passes_on_a_true_status_without_reading_the_log() {
    assert_eq!(check_compile_errors(SourceType::VertexShader, 1, vec![0xff, 0xfe]), Ok(()));
    assert_eq!(check_compile_errors(SourceType::Program, 1, Vec::new()), Ok(()));
}

#[test]
fn check_reports_a_failed_compilation_with_its_log() {
    let log = b"0:1(1): error: syntax error".to_vec();
    let e = check_compile_errors(SourceType::FragmentShader, 0, log).unwrap_err();
    assert_eq!(
        e,
        CheckError::Failed {
            phase: Phase::Compile,
            source_type: SourceType::FragmentShader,
            log: String::from("0:1(1): error: syntax error"),
        }
    );
    assert_eq!(
        e.message(),
        "failed to compile shader code: type=FragmentShader, log=0:1(1): error: syntax error"
    );
}

#[test]
fn check_reports_a_failed_link_with_its_log() {
    let e = check_compile_errors(SourceType::Program, 0, b"error: no main".to_vec()).unwrap_err();
    assert_eq!(
        e,
        CheckError::Failed {
            phase: Phase::Link,
            source_type: SourceType::Program,
            log: String::from("error: no main"),
        }
    );
    assert_eq!(e.message(), "failed to link shader code: type=Program, log=error: no main");
}

#[test]
fn check_fails_on_every_status_but_true() {
    for status in [0, 2, -1, i32::MAX, i32::MIN] {
        assert!(check_compile_errors(SourceType::VertexShader, status, Vec::new()).is_err());
    }
}

#[test]
fn check_reports_a_log_that_is_not_utf8() {
    let bytes = vec![b'o', b'k', 0xff, b'!'];
    let reason = String::from_utf8(bytes.clone()).unwrap_err().to_string();
    let e = check_compile_errors(SourceType::VertexShader, 0, bytes).unwrap_err();
    assert_eq!(e, CheckError::UnreadableLog { phase: Phase::Compile, reason: reason.clone() });
    assert_eq!(
        e.message(),
        format!("failed to convert to compilation log from buffer: {}", reason)
    );
    assert_eq!(
        e.message(),
        "failed to convert to compilation log from buffer: invalid utf-8 sequence of 1 bytes from index 2"
    );
}

#[test]
fn check_reports_an_unreadable_link_log() {
    let e = check_compile_errors(SourceType::Program, 0, vec![0xc3]).unwrap_err();
    assert_eq!(
        e.message(),
        "failed to convert to link log from buffer: incomplete utf-8 byte sequence from index 0"
    );
}

#[test]
fn check_decodes_multi_byte_text() {
    let text = "エラー: 構文";
    let e = check_compile_errors(SourceType::VertexShader, 0, text.as_bytes().to_vec())
        .unwrap_err();
    assert_eq!(
        e,
        CheckError::Failed {
            phase: Phase::Compile,
            source_type: SourceType::VertexShader,
            log: String::from(text),
        }
    );
}

#[test]
fn check_leaves_out_the_last_byte_of_a_full_buffer() {
    assert_eq!(INFO_LOG_CAPACITY, 1024);
    let mut buffer = vec![b'a'; INFO_LOG_CAPACITY];
    buffer[INFO_LOG_CAPACITY - 1] = 0xff;
    let e = check_compile_errors(SourceType::VertexShader, 0, buffer).unwrap_err();
    match e {
        CheckError::Failed { log, .. } => assert_eq!(log, "a".repeat(1023)),
        other => panic!("unexpected error: {:?}", other),
    }
}

#[test]
fn check_cuts_a_longer_buffer_to_the_same_length() {
    let buffer = vec![b'b'; 3000];
    let e = check_compile_errors(SourceType::Program, 0, buffer).unwrap_err();
    match e {
        CheckError::Failed { log, .. } => assert_eq!(log.len(), 1023),
        other => panic!("unexpected error: {:?}", other),
    }
}

#[test]
fn check_reads_a_shorter_buffer_whole() {
    let mut buffer = vec![b'c'; 1023];
    buffer[1022] = 0xff;
    let e = check_compile_errors(SourceType::Program, 0, buffer).unwrap_err();
    assert!(matches!(e, CheckError::UnreadableLog { phase: Phase::Link, .. }));
}

#[test]
fn failure_wraps_a_log_or_a_reason() {
    assert_eq!(
        failure(SourceType::VertexShader, Ok(String::from("bad"))),
        CheckError::Failed {
            phase: Phase::Compile,
            source_type: SourceType::VertexShader,
            log: String::from("bad"),
        }
    );
    assert_eq!(
        failure(SourceType::Program, Err(String::from("why"))),
        CheckError::UnreadableLog { phase: Phase::Link, reason: String::from("why") }
    );
}

#[test]
fn missing_file_message_names_the_path() {
    let message = open_failure("shaders/vertex.glsl");
    assert_eq!(message, "failed to open file: shaders/vertex.glsl");
    assert!(message.contains("shaders/vertex.glsl"));
}

#[test]
fn unreadable_file_message_names_stage_and_path() {
    assert_eq!(
        read_failure(Stage::Vertex, "shaders/vertex.glsl"),
        "failed to read vertex shader (shaders/vertex.glsl)"
    );
    assert_eq!(
        read_failure(Stage::Fragment, "shaders/fragment.glsl"),
        "failed to read fragment shader (shaders/fragment.glsl)"
    );
}
