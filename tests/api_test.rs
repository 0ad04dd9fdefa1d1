use plantuml_editor::api::{interpret_reply, ApiError, ApiReply};
use plantuml_editor::models::{ConvertResponse, ErrorCode, ProcessResult, StatusLevel};

#[test]
fn test_api_error_display_network_error() {
    let error = ApiError::NetworkError("接続タイムアウト".to_string());
    let display_string = error.to_string();
    assert_eq!(display_string, "ネットワークエラー: 接続タイムアウト");
}

#[test]
fn test_api_error_display_server_error() {
    let error = ApiError::ServerError("HTTPエラー: 500".to_string());
    let display_string = error.to_string();
    assert_eq!(display_string, "サーバーエラー: HTTPエラー: 500");
}

#[test]
fn test_api_error_display_process_error_validation_empty() {
    let error = ApiError::ProcessError(ErrorCode::ValidationEmpty);
    let display_string = error.to_string();
    assert_eq!(display_string, "処理エラー: PlantUMLソースを入力してください");
}

#[test]
fn from_process_result_keeps_the_code() {
    let error = ApiError::from_process_result(ProcessResult::new(ErrorCode::ParseError { line: Some(2) }));
    assert!(matches!(error, ApiError::ProcessError(ErrorCode::ParseError { line: Some(2) })));
}

#[test]
fn reply_with_image_is_success() {
    let reply = ApiReply::Answer(ConvertResponse::success(vec![137, 80, 78, 71], ErrorCode::ConversionOk));
    let (data, result) = interpret_reply(reply).unwrap();
    assert_eq!(data, vec![137, 80, 78, 71]);
    assert_eq!(result.level, StatusLevel::Info);
    assert!(matches!(result.code, ErrorCode::ConversionOk));
}

#[test]
fn reply_without_image_is_process_error() {
    let reply = ApiReply::Answer(ConvertResponse::error(ErrorCode::ValidationEmpty));
    match interpret_reply(reply) {
        Err(ApiError::ProcessError(code)) => assert!(matches!(code, ErrorCode::ValidationEmpty)),
        _ => panic!("Expected ProcessError"),
    }
}

#[test]
fn unreachable_service_is_network_error() {
    match interpret_reply(ApiReply::Unreachable) {
        Err(ApiError::NetworkError(m)) => assert!(m.contains("サーバーが応答していません")),
        _ => panic!("Expected NetworkError"),
    }
}

#[test]
fn http_error_names_the_status() {
    match interpret_reply(ApiReply::HttpError { status: 500 }) {
        Err(ApiError::ServerError(m)) => assert_eq!(m, "HTTPエラー: 500"),
        _ => panic!("Expected ServerError"),
    }
}

#[test]
fn unreadable_answer_is_network_error() {
    match interpret_reply(ApiReply::Unreadable) {
        Err(ApiError::NetworkError(m)) => assert!(m.contains("レスポンスの解析に失敗しました")),
        _ => panic!("Expected NetworkError"),
    }
}
