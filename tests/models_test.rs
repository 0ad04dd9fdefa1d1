use plantuml_editor::models::{
    ConvertRequest, ConvertResponse, DiagramImage, DocumentId, ErrorCode, ImageError, ImageFormat,
    PlantUMLDocument, ProcessResult, StatusLevel, StorageError, StorageSlot,
};

#[test]
fn test_document_id_default() {
    let id1 = DocumentId::default();
    let id2 = DocumentId::default();
    assert_ne!(id1, id2);
}

#[test]
fn test_document_id_generation() {
    let doc1 = PlantUMLDocument::new("@startuml\nA\n@enduml".to_string());
    let doc2 = PlantUMLDocument::new("@startuml\nB\n@enduml".to_string());
    assert_ne!(doc1.id, doc2.id);
}

#[test]
fn test_document_creation() {
    let content = "@startuml\nAlice -> Bob: Hello\n@enduml".to_string();
    let doc = PlantUMLDocument::new(content.clone());
    assert_eq!(doc.content, content);
    assert!(doc.title.is_none());
    assert!(doc.created_at > 0);
    assert_eq!(doc.created_at, doc.updated_at);
}

#[test]
fn test_document_validation_valid() {
    let content = "@startuml\nAlice -> Bob: Hello\n@enduml".to_string();
    let doc = PlantUMLDocument::new(content);
    assert!(doc.validate().is_ok());
}

#[test]
fn test_document_validation_empty() {
    let doc = PlantUMLDocument::new("   ".to_string());
    assert!(doc.validate().is_err());
}

#[test]
fn test_document_validation_too_large() {
    let large_content = format!("@startuml\n{}\n@enduml", "x".repeat(25000));
    let doc = PlantUMLDocument::new(large_content);
    assert!(doc.validate().is_err());
}

fn image(format: ImageFormat, data: Vec<u8>, dimensions: (u32, u32)) -> DiagramImage {
    DiagramImage {
        document_id: DocumentId::new(),
        format,
        data,
        dimensions,
        generated_at: chrono::Utc::now().timestamp(),
    }
}

#[test]
fn test_diagram_image_png_validation_valid() {
    let png_data = vec![0x89, 0x50, 0x4E, 0x47, 0x0D, 0x0A, 0x1A, 0x0A];
    let image = image(ImageFormat::Png, png_data, (800, 600));
    assert!(image.validate_png().is_ok());
}

#[test]
fn test_diagram_image_png_validation_invalid_header() {
    let image = image(ImageFormat::Png, vec![0x00, 0x01, 0x02, 0x03], (800, 600));
    assert!(image.validate_png().is_err());
}

#[test]
fn test_diagram_image_png_validation_wrong_format() {
    let svg_image = image(ImageFormat::Svg, vec![0x89, 0x50, 0x4E, 0x47], (800, 600));
    assert!(svg_image.validate_png().is_err());
}

#[test]
fn test_diagram_image_png_validation_empty_data() {
    let image = image(ImageFormat::Png, vec![], (800, 600));
    assert!(image.validate_png().is_err());
}

#[test]
fn test_diagram_image_png_validation_dimensions_too_large() {
    let png_data = vec![0x89, 0x50, 0x4E, 0x47, 0x0D, 0x0A, 0x1A, 0x0A];
    let image = image(ImageFormat::Png, png_data, (9000, 9000));
    assert!(image.validate_png().is_err());
}

#[test]
fn png_validation_reports_each_reason() {
    let header = vec![0x89, 0x50, 0x4E, 0x47];
    assert_eq!(image(ImageFormat::Svg, header.clone(), (1, 1)).validate_png(), Err(ImageError::WrongFormat));
    assert_eq!(image(ImageFormat::Png, vec![], (1, 1)).validate_png(), Err(ImageError::EmptyData));
    assert_eq!(image(ImageFormat::Png, vec![0x89, 0x50, 0x4E], (1, 1)).validate_png(), Err(ImageError::InvalidPngHeader));
    assert_eq!(
        image(ImageFormat::Png, header.clone(), (8192, 8193)).validate_png(),
        Err(ImageError::DimensionsTooLarge((8192, 8193)))
    );
    assert_eq!(image(ImageFormat::Png, header, (8192, 8192)).validate_png(), Ok(()));
}

#[test]
fn test_diagram_image_to_data_url_png() {
    let image = image(ImageFormat::Png, vec![0x89, 0x50, 0x4E, 0x47], (800, 600));
    let data_url = image.to_data_url();
    assert!(data_url.starts_with("data:image/png;base64,"));
}

#[test]
fn test_diagram_image_to_data_url_svg() {
    let image = image(ImageFormat::Svg, b"<svg></svg>".to_vec(), (800, 600));
    let data_url = image.to_data_url();
    assert!(data_url.starts_with("data:image/svg+xml;base64,"));
}

#[test]
fn data_url_pads_short_groups() {
    assert_eq!(image(ImageFormat::Png, vec![0x89], (1, 1)).to_data_url(), "data:image/png;base64,iQ==");
    assert_eq!(image(ImageFormat::Png, vec![0x89, 0x50], (1, 1)).to_data_url(), "data:image/png;base64,iVA=");
    assert_eq!(image(ImageFormat::Png, vec![0x89, 0x50, 0x4E], (1, 1)).to_data_url(), "data:image/png;base64,iVBO");
    assert_eq!(image(ImageFormat::Png, vec![], (1, 1)).to_data_url(), "data:image/png;base64,");
}

#[test]
fn data_url_holds_the_base64_of_the_data() {
    let image = image(ImageFormat::Svg, b"<svg></svg>".to_vec(), (800, 600));
    assert_eq!(image.to_data_url(), "data:image/svg+xml;base64,PHN2Zz48L3N2Zz4=");
}

#[test]
fn test_storage_slot_validation_valid() {
    assert!(StorageSlot::validate_slot_number(1).is_ok());
    assert!(StorageSlot::validate_slot_number(5).is_ok());
    assert!(StorageSlot::validate_slot_number(10).is_ok());
}

#[test]
fn test_storage_slot_validation_invalid() {
    assert!(StorageSlot::validate_slot_number(0).is_err());
    assert!(StorageSlot::validate_slot_number(11).is_err());
    assert!(StorageSlot::validate_slot_number(255).is_err());
}

#[test]
fn test_storage_slot_key() {
    assert_eq!(StorageSlot::storage_key(1), "slot_1");
    assert_eq!(StorageSlot::storage_key(10), "slot_10");
}

#[test]
fn test_convert_request_validation() {
    let valid_request = ConvertRequest {
        plantuml_text: "@startuml\nAlice -> Bob\n@enduml".to_string(),
        format: ImageFormat::Png,
    };
    assert!(valid_request.validate().is_ok());

    let valid_without_tags = ConvertRequest { plantuml_text: "Alice -> Bob".to_string(), format: ImageFormat::Png };
    assert!(valid_without_tags.validate().is_ok());

    let invalid_empty = ConvertRequest { plantuml_text: "   ".to_string(), format: ImageFormat::Png };
    assert!(invalid_empty.validate().is_err());

    let invalid_too_large = ConvertRequest { plantuml_text: "x".repeat(25000), format: ImageFormat::Png };
    assert!(invalid_too_large.validate().is_err());
}

#[test]
fn test_error_code_to_message_success() {
    assert_eq!(ErrorCode::ConversionOk.to_message(), "図が正常に生成されました");
    assert_eq!(ErrorCode::ExportOk.to_message(), "図が正常にエクスポートされました");
    assert_eq!(
        ErrorCode::SaveSuccess { slot_number: 3 }.to_message(),
        "PlantUMLソースをスロット3に保存しました"
    );
    assert_eq!(
        ErrorCode::LoadSuccess { slot_number: 5 }.to_message(),
        "スロット5からPlantUMLソースを読み込みました"
    );
    assert_eq!(
        ErrorCode::DeleteSuccess { slot_number: 7 }.to_message(),
        "スロット7のデータを削除しました"
    );
}

#[test]
fn test_error_code_to_message_validation() {
    assert_eq!(ErrorCode::ValidationEmpty.to_message(), "PlantUMLソースを入力してください");
    let msg = ErrorCode::ValidationTextLimit { actual: 25000, max: 24000 }.to_message();
    assert!(msg.contains("24000"));
    assert!(msg.contains("25000"));
}

#[test]
fn error_code_messages_in_full() {
    assert_eq!(
        ErrorCode::ValidationTextLimit { actual: 25000, max: 24000 }.to_message(),
        "PlantUMLソースが長すぎます。文字数を24000文字以内に減らしてください（現在: 25000文字）"
    );
    assert_eq!(
        ErrorCode::TimeoutError { duration_ms: 30000 }.to_message(),
        "通信がタイムアウトしました（30000ms）。ネットワーク状況をご確認のうえ、再度お試しください"
    );
    assert_eq!(
        ErrorCode::StorageSlotLimit { max_slots: 10 }.to_message(),
        "一時保存上限に達しています（最大10個）。既存のスロットを削除してから保存してください"
    );
    assert_eq!(
        ErrorCode::SaveSuccess { slot_number: 0 }.to_message(),
        "PlantUMLソースをスロット0に保存しました"
    );
    assert_eq!(
        ErrorCode::SizeLimit { actual_bytes: 18446744073709551615, max_bytes: 100 }.to_message(),
        "画像サイズが上限を超えています（現在: 18446744073709551615 bytes、上限: 100 bytes）。'scale'でサイズを縮小するか、図を分割してください"
    );
}

#[test]
fn test_error_code_to_message_storage() {
    let msg = ErrorCode::StorageInputLimit { actual: 25000, max: 24000 }.to_message();
    assert!(msg.contains("24000"));
    let msg = ErrorCode::StorageSlotLimit { max_slots: 10 }.to_message();
    assert!(msg.contains("10"));
    let msg = ErrorCode::StorageWriteError { reason: "test".to_string() }.to_message();
    assert!(msg.contains("test"));
    let msg = ErrorCode::StorageReadError { reason: "test".to_string() }.to_message();
    assert!(msg.contains("test"));
    let msg = ErrorCode::StorageDeleteError { reason: "test".to_string() }.to_message();
    assert!(msg.contains("test"));
}

#[test]
fn test_error_code_to_message_processing() {
    let msg = ErrorCode::SizeLimit { actual_bytes: 5000, max_bytes: 4000 }.to_message();
    assert!(msg.contains("5000"));
    assert!(msg.contains("4000"));
    let msg = ErrorCode::EncodingError { encoding: "UTF-8".to_string() }.to_message();
    assert!(msg.contains("UTF-8"));
    let msg = ErrorCode::ParseError { line: Some(42) }.to_message();
    assert!(msg.contains("42"));
    let msg = ErrorCode::ParseError { line: None }.to_message();
    assert!(!msg.contains("行"));
    let msg = ErrorCode::ExportError { format: "PNG".to_string() }.to_message();
    assert!(msg.contains("PNG"));
}

#[test]
fn test_error_code_to_message_network() {
    let msg = ErrorCode::ServerError { message: "500".to_string() }.to_message();
    assert!(msg.contains("500"));
    let msg = ErrorCode::TimeoutError { duration_ms: 5000 }.to_message();
    assert!(msg.contains("5000"));
    let msg = ErrorCode::NetworkError { endpoint: "/api/v1".to_string() }.to_message();
    assert!(msg.contains("/api/v1"));
}

#[test]
fn test_error_code_status_level_info() {
    assert_eq!(ErrorCode::ConversionOk.status_level(), StatusLevel::Info);
    assert_eq!(ErrorCode::ExportOk.status_level(), StatusLevel::Info);
    assert_eq!(ErrorCode::SaveSuccess { slot_number: 1 }.status_level(), StatusLevel::Info);
    assert_eq!(ErrorCode::LoadSuccess { slot_number: 1 }.status_level(), StatusLevel::Info);
    assert_eq!(ErrorCode::DeleteSuccess { slot_number: 1 }.status_level(), StatusLevel::Info);
}

// An oversized output is a processing failure, of severity Error.
#[test]
fn test_error_code_status_level_warning() {
    assert_eq!(ErrorCode::ValidationEmpty.status_level(), StatusLevel::Warning);
    assert_eq!(ErrorCode::ValidationTextLimit { actual: 25000, max: 24000 }.status_level(), StatusLevel::Warning);
    assert_eq!(ErrorCode::StorageInputLimit { actual: 25000, max: 24000 }.status_level(), StatusLevel::Warning);
    assert_eq!(ErrorCode::StorageSlotLimit { max_slots: 10 }.status_level(), StatusLevel::Warning);
    assert_eq!(ErrorCode::SizeLimit { actual_bytes: 5000, max_bytes: 4000 }.status_level(), StatusLevel::Error);
}

#[test]
fn test_error_code_status_level_error() {
    assert_eq!(ErrorCode::StorageWriteError { reason: "test".to_string() }.status_level(), StatusLevel::Error);
    assert_eq!(ErrorCode::StorageReadError { reason: "test".to_string() }.status_level(), StatusLevel::Error);
    assert_eq!(ErrorCode::StorageDeleteError { reason: "test".to_string() }.status_level(), StatusLevel::Error);
    assert_eq!(ErrorCode::EncodingError { encoding: "UTF-8".to_string() }.status_level(), StatusLevel::Error);
    assert_eq!(ErrorCode::ParseError { line: Some(42) }.status_level(), StatusLevel::Error);
    assert_eq!(ErrorCode::ExportError { format: "PNG".to_string() }.status_level(), StatusLevel::Error);
    assert_eq!(ErrorCode::ServerError { message: "500".to_string() }.status_level(), StatusLevel::Error);
    assert_eq!(ErrorCode::TimeoutError { duration_ms: 5000 }.status_level(), StatusLevel::Error);
    assert_eq!(ErrorCode::NetworkError { endpoint: "/api".to_string() }.status_level(), StatusLevel::Error);
}

#[test]
fn severity_ignores_field_contents() {
    let pairs = vec![
        (ErrorCode::SaveSuccess { slot_number: 0 }, ErrorCode::SaveSuccess { slot_number: 255 }),
        (ErrorCode::StorageInputLimit { actual: 0, max: 0 }, ErrorCode::StorageInputLimit { actual: 9, max: 1 }),
        (ErrorCode::ParseError { line: None }, ErrorCode::ParseError { line: Some(1) }),
        (ErrorCode::NetworkError { endpoint: String::new() }, ErrorCode::NetworkError { endpoint: "x".to_string() }),
    ];
    for (a, b) in pairs {
        assert_eq!(a.status_level(), b.status_level());
    }
}

#[test]
fn test_process_result_new() {
    let result = ProcessResult::new(ErrorCode::ConversionOk);
    assert_eq!(result.level, StatusLevel::Info);
    assert!(matches!(result.code, ErrorCode::ConversionOk));
}

#[test]
fn test_process_result_success() {
    let result = ProcessResult::new(ErrorCode::ExportOk);
    assert_eq!(result.level, StatusLevel::Info);
    assert!(matches!(result.code, ErrorCode::ExportOk));
}

#[test]
fn test_process_result_error() {
    let result = ProcessResult::new(ErrorCode::ValidationEmpty);
    assert_eq!(result.level, StatusLevel::Warning);
    assert!(matches!(result.code, ErrorCode::ValidationEmpty));
}

#[test]
fn test_process_result_message() {
    let result = ProcessResult::new(ErrorCode::ConversionOk);
    assert_eq!(result.message(), "図が正常に生成されました");
}

#[test]
fn test_convert_response_success() {
    let image_data = vec![0x89, 0x50, 0x4E, 0x47];
    let response = ConvertResponse::success(image_data.clone(), ErrorCode::ConversionOk);
    assert_eq!(response.result.level, StatusLevel::Info);
    assert!(matches!(response.result.code, ErrorCode::ConversionOk));
    assert_eq!(response.image_data, Some(image_data));
}

#[test]
fn test_convert_response_error() {
    let response = ConvertResponse::error(ErrorCode::ValidationEmpty);
    assert_eq!(response.result.level, StatusLevel::Warning);
    assert!(matches!(response.result.code, ErrorCode::ValidationEmpty));
    assert_eq!(response.image_data, None);
}

#[test]
fn test_image_error_wrong_format() {
    assert_eq!(ImageError::WrongFormat.to_string(), "画像形式が正しくありません");
}

#[test]
fn test_image_error_invalid_png_header() {
    assert_eq!(ImageError::InvalidPngHeader.to_string(), "無効なPNGヘッダーです");
}

#[test]
fn test_image_error_empty_data() {
    assert_eq!(ImageError::EmptyData.to_string(), "画像データが空です");
}

#[test]
fn test_image_error_dimensions_too_large() {
    let error = ImageError::DimensionsTooLarge((9000, 9000));
    let error_str = error.to_string();
    assert!(error_str.contains("9000"));
    assert!(error_str.contains("8192"));
}

#[test]
fn test_storage_error_invalid_slot_number() {
    let error = StorageError::InvalidSlotNumber(15);
    let error_str = error.to_string();
    assert!(error_str.contains("15"));
    assert!(error_str.contains("1-10"));
}

#[test]
fn test_storage_error_slots_full() {
    assert_eq!(StorageError::SlotsFull.to_string(), "スロットが満杯です (最大: 10)");
}

#[test]
fn test_storage_error_quota_exceeded() {
    assert_eq!(StorageError::QuotaExceeded.to_string(), "LocalStorage容量超過 (上限: 5MB)");
}

#[test]
fn test_storage_error_slot_empty() {
    let error = StorageError::SlotEmpty(5);
    let error_str = error.to_string();
    assert!(error_str.contains("5"));
    assert!(error_str.contains("空です"));
}
