use gif_maker::error::{prefixed, ConversionError, WriteTarget};

#[test]
fn temporary_storage_message() {
    let error = ConversionError::TemporaryStorage { cause: "disk full".to_string() };
    assert_eq!(error.message(), "Failed to create temp dir: disk full");
    assert_eq!(error.status(), "Error: Failed to create temp dir: disk full");
}

#[test]
fn external_tool_exit_message() {
    let error = ConversionError::ExternalTool { tool: "ffmpeg".to_string(), launch: None };
    assert_eq!(error.message(), "ffmpeg returned an error");
    assert_eq!(error.status(), "Error: ffmpeg returned an error");
}

#[test]
fn external_tool_launch_message() {
    let error = ConversionError::ExternalTool {
        tool: "ffmpeg".to_string(),
        launch: Some("No such file or directory".to_string()),
    };
    assert_eq!(error.message(), "Failed to execute ffmpeg: No such file or directory");
}

#[test]
fn frame_discovery_message() {
    let error = ConversionError::FrameDiscovery { cause: "bad pattern".to_string() };
    assert_eq!(error.message(), "glob error: bad pattern");
}

#[test]
fn empty_result_message() {
    assert_eq!(ConversionError::EmptyResult.message(), "No frames found");
    assert_eq!(ConversionError::EmptyResult.status(), "Error: No frames found");
}

#[test]
fn image_decode_message() {
    let error = ConversionError::ImageDecode { cause: "not a PNG".to_string() };
    assert_eq!(error.message(), "Failed to open frame: not a PNG");
}

#[test]
fn encoder_init_message() {
    let error = ConversionError::EncoderInit { cause: "refused".to_string() };
    assert_eq!(error.message(), "GIF encoder failed: refused");
}

#[test]
fn write_messages() {
    let output = ConversionError::Write {
        target: WriteTarget::Output,
        cause: "permission denied".to_string(),
    };
    assert_eq!(output.message(), "Failed to create output: permission denied");
    let frame = ConversionError::Write { target: WriteTarget::Frame, cause: "full".to_string() };
    assert_eq!(frame.message(), "Failed to write frame: full");
    assert_eq!(frame.status(), "Error: Failed to write frame: full");
}

#[test]
fn prefixed_joins_two_texts() {
    assert_eq!(prefixed("ab", "cd"), "abcd");
    assert_eq!(prefixed("", "cd"), "cd");
    assert_eq!(prefixed("ab", ""), "ab");
}
