//! The processing-result taxonomy and the data carried between the layers.
use vstd::prelude::*;

use crate::text::{decimal, decimal_string, decimal_usize};
use crate::validation::{validate_plantuml_content, validation_of, ValidationError};

verus! {

/// Output format of a rendered diagram.
#[derive(Debug, Clone, Copy, PartialEq, Eq, Structural)]
pub enum ImageFormat {
    Png,
    Svg,
}

/// User impact of an outcome.
#[derive(Debug, Clone, Copy, PartialEq, Eq, Structural)]
pub enum StatusLevel {
    /// The operation completed.
    Info,
    /// The input was not accepted; the user can correct it.
    Warning,
    /// The operation failed.
    Error,
}

/// Every outcome that an operation of the editor can report, with the data
/// needed to explain it.
#[derive(Debug, Clone, PartialEq)]
pub enum ErrorCode {
    ConversionOk,
    ExportOk,
    SaveSuccess { slot_number: u8 },
    LoadSuccess { slot_number: u8 },
    DeleteSuccess { slot_number: u8 },
    ValidationEmpty,
    ValidationTextLimit { actual: usize, max: usize },
    StorageInputLimit { actual: usize, max: usize },
    StorageSlotLimit { max_slots: usize },
    StorageWriteError { reason: String },
    StorageReadError { reason: String },
    StorageDeleteError { reason: String },
    SizeLimit { actual_bytes: usize, max_bytes: usize },
    EncodingError { encoding: String },
    ParseError { line: Option<usize> },
    ExportError { format: String },
    ServerError { message: String },
    TimeoutError { duration_ms: u64 },
    NetworkError { endpoint: String },
}

/// The severity of an outcome; it depends on the variant alone.
pub open spec fn severity(code: ErrorCode) -> StatusLevel {
    match code {
        ErrorCode::ConversionOk
        | ErrorCode::ExportOk
        | ErrorCode::SaveSuccess { .. }
        | ErrorCode::LoadSuccess { .. }
        | ErrorCode::DeleteSuccess { .. } => StatusLevel::Info,
        ErrorCode::ValidationEmpty
        | ErrorCode::ValidationTextLimit { .. }
        | ErrorCode::StorageInputLimit { .. }
        | ErrorCode::StorageSlotLimit { .. } => StatusLevel::Warning,
        _ => StatusLevel::Error,
    }
}

/// Whether two outcomes are of the same variant, whatever their fields hold.
pub open spec fn same_variant(a: ErrorCode, b: ErrorCode) -> bool {
    ||| a is ConversionOk && b is ConversionOk
    ||| a is ExportOk && b is ExportOk
    ||| a is SaveSuccess && b is SaveSuccess
    ||| a is LoadSuccess && b is LoadSuccess
    ||| a is DeleteSuccess && b is DeleteSuccess
    ||| a is ValidationEmpty && b is ValidationEmpty
    ||| a is ValidationTextLimit && b is ValidationTextLimit
    ||| a is StorageInputLimit && b is StorageInputLimit
    ||| a is StorageSlotLimit && b is StorageSlotLimit
    ||| a is StorageWriteError && b is StorageWriteError
    ||| a is StorageReadError && b is StorageReadError
    ||| a is StorageDeleteError && b is StorageDeleteError
    ||| a is SizeLimit && b is SizeLimit
    ||| a is EncodingError && b is EncodingError
    ||| a is ParseError && b is ParseError
    ||| a is ExportError && b is ExportError
    ||| a is ServerError && b is ServerError
    ||| a is TimeoutError && b is TimeoutError
    ||| a is NetworkError && b is NetworkError
}

/// Outcomes of the same variant have the same severity, whatever their fields hold.
pub proof fn severity_depends_on_variant_only(a: ErrorCode, b: ErrorCode)
    requires
        same_variant(a, b),
    ensures
        severity(a) == severity(b),
{
}

/// Whether the outcome reports a finished conversion or export, the only
/// outcomes that come with image data.
pub open spec fn is_render_success(code: ErrorCode) -> bool {
    code is ConversionOk || code is ExportOk
}

/// The user-facing message of an outcome.
pub open spec fn message_of(code: ErrorCode) -> Seq<char> {
    match code {
        ErrorCode::ConversionOk => "図が正常に生成されました"@,
        ErrorCode::ExportOk => "図が正常にエクスポートされました"@,
        ErrorCode::SaveSuccess { slot_number } =>
            "PlantUMLソースをスロット"@ + decimal(slot_number as nat) + "に保存しました"@,
        ErrorCode::LoadSuccess { slot_number } =>
            "スロット"@ + decimal(slot_number as nat) + "からPlantUMLソースを読み込みました"@,
        ErrorCode::DeleteSuccess { slot_number } =>
            "スロット"@ + decimal(slot_number as nat) + "のデータを削除しました"@,
        ErrorCode::ValidationEmpty => "PlantUMLソースを入力してください"@,
        ErrorCode::ValidationTextLimit { actual, max } =>
            "PlantUMLソースが長すぎます。文字数を"@ + decimal(max as nat)
                + "文字以内に減らしてください（現在: "@ + decimal(actual as nat) + "文字）"@,
        ErrorCode::StorageInputLimit { actual, max } =>
            "保存する内容の文字数が上限("@ + decimal(max as nat)
                + "文字)を超えています。内容を短縮してください（現在: "@ + decimal(actual as nat)
                + "文字）"@,
        ErrorCode::StorageSlotLimit { max_slots } =>
            "一時保存上限に達しています（最大"@ + decimal(max_slots as nat)
                + "個）。既存のスロットを削除してから保存してください"@,
        ErrorCode::StorageWriteError { reason } =>
            "ローカルストレージへの保存に失敗しました。"@ + reason@,
        ErrorCode::StorageReadError { reason } =>
            "ローカルストレージからの読み込みに失敗しました。"@ + reason@,
        ErrorCode::StorageDeleteError { reason } =>
            "ローカルストレージのデータ削除に失敗しました。"@ + reason@,
        ErrorCode::SizeLimit { actual_bytes, max_bytes } =>
            "画像サイズが上限を超えています（現在: "@ + decimal(actual_bytes as nat)
                + " bytes、上限: "@ + decimal(max_bytes as nat)
                + " bytes）。'scale'でサイズを縮小するか、図を分割してください"@,
        ErrorCode::EncodingError { encoding } =>
            "PlantUMLソースの変換に失敗しました（エンコーディング: "@ + encoding@
                + "）。文字コードや特殊文字が含まれていないかご確認ください"@,
        ErrorCode::ParseError { line } => match line {
            Some(n) =>
                "PlantUMLの処理中にエラーが発生しました（行: "@ + decimal(n as nat)
                    + "）。管理者へお問い合わせください"@,
            None => "PlantUMLの処理中にエラーが発生しました。管理者へお問い合わせください"@,
        },
        ErrorCode::ExportError { format } =>
            "ファイルのエクスポートに失敗しました（形式: "@ + format@ + "）。再度お試しください"@,
        ErrorCode::ServerError { message } =>
            "サーバーエラー: "@ + message@
                + "。時間をおいて再度接続を試すか管理者に問い合わせてください"@,
        ErrorCode::TimeoutError { duration_ms } =>
            "通信がタイムアウトしました（"@ + decimal(duration_ms as nat)
                + "ms）。ネットワーク状況をご確認のうえ、再度お試しください"@,
        ErrorCode::NetworkError { endpoint } =>
            "ネットワーク接続に失敗しました（エンドポイント: "@ + endpoint@
                + "）。インターネット接続をご確認ください"@,
    }
}

/// `a` followed by `b` followed by `c`.
fn join3(a: &str, b: &str, c: &str) -> (r: String)
    ensures
        r@ == a@ + b@ + c@,
{
    let mut r = String::from_str(a);
    r.append(b);
    r.append(c);
    r
}

/// `a` followed by `b`.
fn join2(a: &str, b: &str) -> (r: String)
    ensures
        r@ == a@ + b@,
{
    let mut r = String::from_str(a);
    r.append(b);
    r
}

/// `a`, `b`, `c`, `d` and `e` in a row.
fn join5(a: &str, b: &str, c: &str, d: &str, e: &str) -> (r: String)
    ensures
        r@ == a@ + b@ + c@ + d@ + e@,
{
    let mut r = String::from_str(a);
    r.append(b);
    r.append(c);
    r.append(d);
    r.append(e);
    r
}

impl ErrorCode {
    /// The user-facing message of this outcome.
    pub fn to_message(&self) -> (r: String)
        ensures
            r@ == message_of(*self),
    {
        match self {
            ErrorCode::ConversionOk => String::from_str("図が正常に生成されました"),
            ErrorCode::ExportOk => String::from_str("図が正常にエクスポートされました"),
            ErrorCode::SaveSuccess { slot_number } => join3(
                "PlantUMLソースをスロット",
                decimal_string(*slot_number as u64).as_str(),
                "に保存しました",
            ),
            ErrorCode::LoadSuccess { slot_number } => join3(
                "スロット",
                decimal_string(*slot_number as u64).as_str(),
                "からPlantUMLソースを読み込みました",
            ),
            ErrorCode::DeleteSuccess { slot_number } => join3(
                "スロット",
                decimal_string(*slot_number as u64).as_str(),
                "のデータを削除しました",
            ),
            ErrorCode::ValidationEmpty => String::from_str("PlantUMLソースを入力してください"),
            ErrorCode::ValidationTextLimit { actual, max } => join5(
                "PlantUMLソースが長すぎます。文字数を",
                decimal_usize(*max).as_str(),
                "文字以内に減らしてください（現在: ",
                decimal_usize(*actual).as_str(),
                "文字）",
            ),
            ErrorCode::StorageInputLimit { actual, max } => join5(
                "保存する内容の文字数が上限(",
                decimal_usize(*max).as_str(),
                "文字)を超えています。内容を短縮してください（現在: ",
                decimal_usize(*actual).as_str(),
                "文字）",
            ),
            ErrorCode::StorageSlotLimit { max_slots } => join3(
                "一時保存上限に達しています（最大",
                decimal_usize(*max_slots).as_str(),
                "個）。既存のスロットを削除してから保存してください",
            ),
            ErrorCode::StorageWriteError { reason } => join2(
                "ローカルストレージへの保存に失敗しました。",
                reason.as_str(),
            ),
            ErrorCode::StorageReadError { reason } => join2(
                "ローカルストレージからの読み込みに失敗しました。",
                reason.as_str(),
            ),
            ErrorCode::StorageDeleteError { reason } => join2(
                "ローカルストレージのデータ削除に失敗しました。",
                reason.as_str(),
            ),
            ErrorCode::SizeLimit { actual_bytes, max_bytes } => join5(
                "画像サイズが上限を超えています（現在: ",
                decimal_usize(*actual_bytes).as_str(),
                " bytes、上限: ",
                decimal_usize(*max_bytes).as_str(),
                " bytes）。'scale'でサイズを縮小するか、図を分割してください",
            ),
            ErrorCode::EncodingError { encoding } => join3(
                "PlantUMLソースの変換に失敗しました（エンコーディング: ",
                encoding.as_str(),
                "）。文字コードや特殊文字が含まれていないかご確認ください",
            ),
            ErrorCode::ParseError { line } => match line {
                Some(n) => join3(
                    "PlantUMLの処理中にエラーが発生しました（行: ",
                    decimal_usize(*n).as_str(),
                    "）。管理者へお問い合わせください",
                ),
                None => String::from_str(
                    "PlantUMLの処理中にエラーが発生しました。管理者へお問い合わせください",
                ),
            },
            ErrorCode::ExportError { format } => join3(
                "ファイルのエクスポートに失敗しました（形式: ",
                format.as_str(),
                "）。再度お試しください",
            ),
            ErrorCode::ServerError { message } => join3(
                "サーバーエラー: ",
                message.as_str(),
                "。時間をおいて再度接続を試すか管理者に問い合わせてください",
            ),
            ErrorCode::TimeoutError { duration_ms } => join3(
                "通信がタイムアウトしました（",
                decimal_string(*duration_ms).as_str(),
                "ms）。ネットワーク状況をご確認のうえ、再度お試しください",
            ),
            ErrorCode::NetworkError { endpoint } => join3(
                "ネットワーク接続に失敗しました（エンドポイント: ",
                endpoint.as_str(),
                "）。インターネット接続をご確認ください",
            ),
        }
    }

    /// The severity of this outcome.
    pub fn status_level(&self) -> (r: StatusLevel)
        ensures
            r == severity(*self),
    {
        match self {
            ErrorCode::ConversionOk
            | ErrorCode::ExportOk
            | ErrorCode::SaveSuccess { .. }
            | ErrorCode::LoadSuccess { .. }
            | ErrorCode::DeleteSuccess { .. } => StatusLevel::Info,
            ErrorCode::ValidationEmpty
            | ErrorCode::ValidationTextLimit { .. }
            | ErrorCode::StorageInputLimit { .. }
            | ErrorCode::StorageSlotLimit { .. } => StatusLevel::Warning,
            _ => StatusLevel::Error,
        }
    }
}

/// An outcome together with its severity.
#[derive(Debug, Clone)]
pub struct ProcessResult {
    pub level: StatusLevel,
    pub code: ErrorCode,
}

impl ProcessResult {
    /// Whether the level is the one the outcome determines.
    pub open spec fn wf(&self) -> bool {
        self.level == severity(self.code)
    }

    /// Pairs `code` with its severity.
    pub fn new(code: ErrorCode) -> (r: Self)
        ensures
            r.code == code,
            r.level == severity(code),
            r.wf(),
    {
        let level = code.status_level();
        ProcessResult { level, code }
    }

    /// The user-facing message of the outcome.
    pub fn message(&self) -> (r: String)
        ensures
            r@ == message_of(self.code),
    {
        self.code.to_message()
    }
}

/// Relies on uuid::Uuid::new_v4 (random version 4 identifier), read as its 128 bits.
#[verifier::external_body]
fn random_uuid_bits() -> u128 {
    uuid::Uuid::new_v4().as_u128()
}

/// Relies on chrono::Utc::now and DateTime::timestamp: the current time in
/// seconds since the Unix epoch.
#[verifier::external_body]
pub(crate) fn unix_now() -> i64 {
    chrono::Utc::now().timestamp()
}

/// Identifier of a document: the 128 bits of a random UUID.
#[derive(Debug, Clone, Copy, PartialEq, Eq, Hash, Structural)]
pub struct DocumentId(pub u128);

impl DocumentId {
    /// A fresh random identifier.
    pub fn new() -> (r: Self) {
        DocumentId(random_uuid_bits())
    }
}

impl Default for DocumentId {
    fn default() -> (r: Self) {
        DocumentId::new()
    }
}

/// Diagram source with its metadata.
#[derive(Debug, Clone)]
pub struct PlantUMLDocument {
    pub id: DocumentId,
    pub content: String,
    /// Seconds since the Unix epoch.
    pub created_at: i64,
    /// Seconds since the Unix epoch.
    pub updated_at: i64,
    pub title: Option<String>,
}

impl PlantUMLDocument {
    /// A document with the given content, created now, under a fresh identifier.
    pub fn new(content: String) -> (r: Self)
        ensures
            r.content == content,
            r.title is None,
            r.created_at == r.updated_at,
    {
        let now = unix_now();
        PlantUMLDocument { id: DocumentId::new(), content, created_at: now, updated_at: now, title: None }
    }

    /// Validates the content.
    pub fn validate(&self) -> (r: Result<(), ValidationError>)
        ensures
            r == validation_of(self.content@),
    {
        validate_plantuml_content(self.content.as_str())
    }
}

/// The largest width or height accepted for a PNG image.
pub const MAX_DIMENSION: u32 = 8192;

/// Why an image was refused.
#[derive(Debug, Clone, Copy, PartialEq, Eq)]
pub enum ImageError {
    WrongFormat,
    InvalidPngHeader,
    EmptyData,
    DimensionsTooLarge((u32, u32)),
}

/// The four bytes that every PNG file starts with.
pub open spec fn png_signature() -> Seq<u8> {
    seq![0x89u8, 0x50u8, 0x4eu8, 0x47u8]
}

/// Whether `data` starts with the PNG signature.
pub open spec fn has_png_signature(data: Seq<u8>) -> bool {
    data.len() >= 4 && data.take(4) == png_signature()
}

/// What checking a PNG image decides.
pub open spec fn png_check(
    format: ImageFormat,
    data: Seq<u8>,
    dimensions: (u32, u32),
) -> Result<(), ImageError> {
    if format != ImageFormat::Png {
        Err(ImageError::WrongFormat)
    } else if data.len() == 0 {
        Err(ImageError::EmptyData)
    } else if !has_png_signature(data) {
        Err(ImageError::InvalidPngHeader)
    } else if dimensions.0 > MAX_DIMENSION || dimensions.1 > MAX_DIMENSION {
        Err(ImageError::DimensionsTooLarge(dimensions))
    } else {
        Ok(())
    }
}

/// The MIME type of a format.
pub open spec fn mime_type(format: ImageFormat) -> Seq<char> {
    match format {
        ImageFormat::Png => "image/png"@,
        ImageFormat::Svg => "image/svg+xml"@,
    }
}

/// The standard Base64 alphabet.
pub open spec fn base64_alphabet() -> Seq<char> {
    "ABCDEFGHIJKLMNOPQRSTUVWXYZabcdefghijklmnopqrstuvwxyz0123456789+/"@
}

/// The standard Base64 encoding of `b`: each group of three bytes becomes
/// four characters of six bits each, and a last group of one or two bytes is
/// filled with zero bits and padded with '='.
pub open spec fn base64_standard(b: Seq<u8>) -> Seq<char>
    decreases b.len(),
{
    let a = base64_alphabet();
    if b.len() == 0 {
        seq![]
    } else if b.len() == 1 {
        let x = b[0] as int;
        seq![a[x / 4], a[(x % 4) * 16], '=', '=']
    } else if b.len() == 2 {
        let (x, y) = (b[0] as int, b[1] as int);
        seq![a[x / 4], a[(x % 4) * 16 + y / 16], a[(y % 16) * 4], '=']
    } else {
        let (x, y, z) = (b[0] as int, b[1] as int, b[2] as int);
        seq![a[x / 4], a[(x % 4) * 16 + y / 16], a[(y % 16) * 4 + z / 64], a[z % 64]]
            + base64_standard(b.skip(3))
    }
}

/// Relies on base64's STANDARD engine `encode`: standard alphabet, with
/// padding. It panics only where the encoded length overflows `usize`.
#[verifier::external_body]
fn base64_encode(data: &Vec<u8>) -> (r: String)
    requires
        data@.len() <= isize::MAX,
    ensures
        r@ == base64_standard(data@),
{
    base64::Engine::encode(&base64::engine::general_purpose::STANDARD, data)
}

/// A rendered diagram.
#[derive(Debug)]
pub struct DiagramImage {
    pub document_id: DocumentId,
    pub format: ImageFormat,
    pub data: Vec<u8>,
    /// Width and height in pixels.
    pub dimensions: (u32, u32),
    /// Seconds since the Unix epoch.
    pub generated_at: i64,
}

impl DiagramImage {
    /// Checks that this is a PNG image of acceptable size.
    pub fn validate_png(&self) -> (r: Result<(), ImageError>)
        ensures
            r == png_check(self.format, self.data@, self.dimensions),
    {
        if self.format != ImageFormat::Png {
            return Err(ImageError::WrongFormat);
        }
        if self.data.len() == 0 {
            return Err(ImageError::EmptyData);
        }
        if self.data.len() < 4 || self.data[0] != 0x89u8 || self.data[1] != 0x50u8
            || self.data[2] != 0x4eu8 || self.data[3] != 0x47u8 {
            assert(!has_png_signature(self.data@)) by {
                if self.data@.len() >= 4 && self.data@.take(4) == png_signature() {
                    assert(self.data@.take(4)[0] == self.data@[0]);
                    assert(self.data@.take(4)[1] == self.data@[1]);
                    assert(self.data@.take(4)[2] == self.data@[2]);
                    assert(self.data@.take(4)[3] == self.data@[3]);
                }
            }
            return Err(ImageError::InvalidPngHeader);
        }
        assert(self.data@.take(4) =~= png_signature());
        if self.dimensions.0 > MAX_DIMENSION || self.dimensions.1 > MAX_DIMENSION {
            return Err(ImageError::DimensionsTooLarge(self.dimensions));
        }
        Ok(())
    }

    /// The image as a `data:` URL with Base64 content. (No allocation holds
    /// more than `isize::MAX` bytes.)
    pub fn to_data_url(&self) -> (r: String)
        requires
            self.data@.len() <= isize::MAX,
        ensures
            r@ == "data:"@ + mime_type(self.format) + ";base64,"@ + base64_standard(self.data@),
    {
        let mime = match self.format {
            ImageFormat::Png => "image/png",
            ImageFormat::Svg => "image/svg+xml",
        };
        let encoded = base64_encode(&self.data);
        let mut r = String::from_str("data:");
        r.append(mime);
        r.append(";base64,");
        r.append(encoded.as_str());
        r
    }
}

impl ImageError {
    /// A description of the error for the user.
    pub fn to_string(&self) -> (r: String)
        ensures
            r@ == image_error_text(*self),
    {
        match self {
            ImageError::WrongFormat => String::from_str("画像形式が正しくありません"),
            ImageError::InvalidPngHeader => String::from_str("無効なPNGヘッダーです"),
            ImageError::EmptyData => String::from_str("画像データが空です"),
            ImageError::DimensionsTooLarge((w, h)) => {
                let mut r = String::from_str("画像サイズが大きすぎます: (");
                r.append(decimal_string(*w as u64).as_str());
                r.append(", ");
                r.append(decimal_string(*h as u64).as_str());
                r.append(") (上限: 8192x8192)");
                r
            },
        }
    }
}

/// The description of an image error.
pub open spec fn image_error_text(e: ImageError) -> Seq<char> {
    match e {
        ImageError::WrongFormat => "画像形式が正しくありません"@,
        ImageError::InvalidPngHeader => "無効なPNGヘッダーです"@,
        ImageError::EmptyData => "画像データが空です"@,
        ImageError::DimensionsTooLarge((w, h)) => "画像サイズが大きすぎます: ("@ + decimal(w as nat)
            + ", "@ + decimal(h as nat) + ") (上限: 8192x8192)"@,
    }
}

/// The number of save slots.
pub const MAX_SLOTS: u8 = 10;

/// Whether `n` numbers a save slot.
pub open spec fn valid_slot(n: int) -> bool {
    1 <= n <= MAX_SLOTS
}

/// The storage key of slot `n`.
pub open spec fn slot_key(n: nat) -> Seq<char> {
    "slot_"@ + decimal(n)
}

/// A document kept in one of the save slots.
#[derive(Debug, Clone)]
pub struct StorageSlot {
    /// From 1 to `MAX_SLOTS`.
    pub slot_number: u8,
    pub document: PlantUMLDocument,
    /// Seconds since the Unix epoch.
    pub saved_at: i64,
}

impl StorageSlot {
    /// Checks that `slot_number` numbers a save slot.
    pub fn validate_slot_number(slot_number: u8) -> (r: Result<(), StorageError>)
        ensures
            valid_slot(slot_number as int) ==> r is Ok,
            !valid_slot(slot_number as int) ==> r == Err::<(), StorageError>(
                StorageError::InvalidSlotNumber(slot_number as usize),
            ),
    {
        if slot_number < 1 || slot_number > MAX_SLOTS {
            return Err(StorageError::InvalidSlotNumber(slot_number as usize));
        }
        Ok(())
    }

    /// The storage key under which slot `slot_number` is kept.
    pub fn storage_key(slot_number: u8) -> (r: String)
        ensures
            r@ == slot_key(slot_number as nat),
    {
        let mut r = String::from_str("slot_");
        r.append(decimal_string(slot_number as u64).as_str());
        r
    }
}

/// What a save slot holds, as the storage contracts see it.
pub struct SlotRecord {
    pub slot_number: u8,
    pub id: DocumentId,
    pub content: Seq<char>,
    pub title: Option<Seq<char>>,
    pub created_at: i64,
    pub updated_at: i64,
    pub saved_at: i64,
}

/// The view of an optional string.
pub open spec fn opt_view(o: Option<String>) -> Option<Seq<char>> {
    match o {
        Some(s) => Some(s@),
        None => None,
    }
}

impl View for StorageSlot {
    type V = SlotRecord;

    open spec fn view(&self) -> SlotRecord {
        SlotRecord {
            slot_number: self.slot_number,
            id: self.document.id,
            content: self.document.content@,
            title: opt_view(self.document.title),
            created_at: self.document.created_at,
            updated_at: self.document.updated_at,
            saved_at: self.saved_at,
        }
    }
}

impl StorageSlot {
    /// A copy of this slot.
    pub fn duplicate(&self) -> (r: Self)
        ensures
            r@ == self@,
    {
        let title = match &self.document.title {
            Some(t) => Some(t.clone()),
            None => None,
        };
        StorageSlot {
            slot_number: self.slot_number,
            document: PlantUMLDocument {
                id: self.document.id,
                content: self.document.content.clone(),
                created_at: self.document.created_at,
                updated_at: self.document.updated_at,
                title,
            },
            saved_at: self.saved_at,
        }
    }
}

/// Why a slot operation failed.
#[derive(Debug, Clone, PartialEq)]
pub enum StorageError {
    /// The number does not name a slot.
    InvalidSlotNumber(usize),
    /// Every slot is taken.
    SlotsFull,
    /// The storage has no room for the record.
    QuotaExceeded,
    /// The slot holds nothing.
    SlotEmpty(usize),
    /// The stored record could not be read.
    ReadFailed(String),
}

/// The description of a storage error.
pub open spec fn storage_error_text(e: StorageError) -> Seq<char> {
    match e {
        StorageError::InvalidSlotNumber(n) => "無効なスロット番号です: "@ + decimal(n as nat)
            + " (有効範囲: 1-10)"@,
        StorageError::SlotsFull => "スロットが満杯です (最大: 10)"@,
        StorageError::QuotaExceeded => "LocalStorage容量超過 (上限: 5MB)"@,
        StorageError::SlotEmpty(n) => "スロット"@ + decimal(n as nat) + "は空です"@,
        StorageError::ReadFailed(reason) => "読み込みに失敗しました: "@ + reason@,
    }
}

impl StorageError {
    /// A description of the error for the user.
    pub fn to_string(&self) -> (r: String)
        ensures
            r@ == storage_error_text(*self),
    {
        match self {
            StorageError::InvalidSlotNumber(n) => join3(
                "無効なスロット番号です: ",
                decimal_usize(*n).as_str(),
                " (有効範囲: 1-10)",
            ),
            StorageError::SlotsFull => String::from_str("スロットが満杯です (最大: 10)"),
            StorageError::QuotaExceeded => String::from_str("LocalStorage容量超過 (上限: 5MB)"),
            StorageError::SlotEmpty(n) => join3(
                "スロット",
                decimal_usize(*n).as_str(),
                "は空です",
            ),
            StorageError::ReadFailed(reason) => join2("読み込みに失敗しました: ", reason.as_str()),
        }
    }
}

/// A request to convert or export diagram source.
#[derive(Debug)]
pub struct ConvertRequest {
    pub plantuml_text: String,
    pub format: ImageFormat,
}

impl ConvertRequest {
    /// Validates the diagram source of the request.
    pub fn validate(&self) -> (r: Result<(), ValidationError>)
        ensures
            r == validation_of(self.plantuml_text@),
    {
        validate_plantuml_content(self.plantuml_text.as_str())
    }
}

/// The answer to a conversion or export request: the outcome, and the image
/// when the diagram was rendered.
#[derive(Debug)]
pub struct ConvertResponse {
    pub result: ProcessResult,
    pub image_data: Option<Vec<u8>>,
}

impl ConvertResponse {
    /// Whether the severity fits the outcome, and image data comes exactly
    /// with a finished conversion or export.
    pub open spec fn wf(&self) -> bool {
        &&& self.result.wf()
        &&& (self.image_data is Some <==> is_render_success(self.result.code))
    }

    /// The answer for a rendered diagram.
    pub fn success(image_data: Vec<u8>, code: ErrorCode) -> (r: Self)
        requires
            is_render_success(code),
        ensures
            r.result.code == code,
            r.image_data == Some(image_data),
            r.wf(),
    {
        ConvertResponse { result: ProcessResult::new(code), image_data: Some(image_data) }
    }

    /// The answer for a request that produced no image.
    pub fn error(code: ErrorCode) -> (r: Self)
        requires
            !is_render_success(code),
        ensures
            r.result.code == code,
            r.image_data is None,
            r.wf(),
    {
        ConvertResponse { result: ProcessResult::new(code), image_data: None }
    }
}

} // verus!
