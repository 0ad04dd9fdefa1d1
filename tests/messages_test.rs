use plantuml_editor::messages::{get_message_class, get_message_from_result, MessageLevel, UiError};
use plantuml_editor::models::{ErrorCode, ProcessResult, StatusLevel};
use plantuml_editor::text::get_preview;

#[test]
fn test_message_level_from_status_level_info() {
    let level: MessageLevel = StatusLevel::Info.into();
    assert_eq!(level, MessageLevel::Info);
}

#[test]
fn test_message_level_from_status_level_warning() {
    let level: MessageLevel = StatusLevel::Warning.into();
    assert_eq!(level, MessageLevel::Warning);
}

#[test]
fn test_message_level_from_status_level_error() {
    let level: MessageLevel = StatusLevel::Error.into();
    assert_eq!(level, MessageLevel::Error);
}

#[test]
fn test_get_message_class_returns_info_class() {
    assert_eq!(get_message_class(MessageLevel::Info), "message-text");
}

#[test]
fn test_get_message_class_returns_warning_class() {
    assert_eq!(get_message_class(MessageLevel::Warning), "message-text warning");
}

#[test]
fn test_get_message_class_returns_error_class() {
    assert_eq!(get_message_class(MessageLevel::Error), "message-text error");
}

#[test]
fn message_from_result_uses_the_shared_table() {
    let result = ProcessResult::new(ErrorCode::DeleteSuccess { slot_number: 9 });
    assert_eq!(get_message_from_result(&result), "スロット9のデータを削除しました");
    let result = ProcessResult::new(ErrorCode::NetworkError { endpoint: "http://r".to_string() });
    assert_eq!(get_message_from_result(&result), result.code.to_message());
}

#[test]
fn ui_error_descriptions() {
    assert_eq!(UiError::StorageError("x".to_string()).to_string(), "ストレージエラー: x");
    assert_eq!(UiError::RenderError("y".to_string()).to_string(), "描画エラー: y");
}

#[test]
fn preview_takes_three_lines() {
    assert_eq!(get_preview(""), "");
    assert_eq!(get_preview("one"), "one");
    assert_eq!(get_preview("a\nb\nc\nd"), "a\nb\nc");
    assert_eq!(get_preview("a\r\nb\r\n"), "a\nb");
    assert_eq!(get_preview("a\n\nb\nc"), "a\n\nb");
    assert_eq!(get_preview("\n"), "");
}

#[test]
fn preview_is_cut_at_one_hundred_characters() {
    let line = "あ".repeat(120);
    assert_eq!(get_preview(&line), format!("{}...", "あ".repeat(100)));
    assert_eq!(get_preview(&"b".repeat(100)), "b".repeat(100));
    let text = format!("{}\n{}", "c".repeat(60), "d".repeat(60));
    assert_eq!(get_preview(&text), format!("{}\n{}...", "c".repeat(60), "d".repeat(39)));
}
