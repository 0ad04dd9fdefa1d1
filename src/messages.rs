//! What the editor shows the user: message levels and texts, and the
//! decisions behind the save, load and delete actions.
use vstd::prelude::*;

use crate::models::{
    message_of, slot_key, valid_slot, ErrorCode, ProcessResult, StatusLevel, StorageError,
};
use crate::storage::{
    is_taken, slots_taken_below, storage_error_code, storage_error_to_result, StorageBackend, StorageService,
};
use crate::validation::{is_blank, is_blank_str, MAX_CHARS};

verus! {

/// How a message is shown.
#[derive(Debug, Clone, Copy, PartialEq, Eq, Structural)]
pub enum MessageLevel {
    Info,
    Warning,
    Error,
}

/// The message level for a severity.
pub open spec fn level_for(level: StatusLevel) -> MessageLevel {
    match level {
        StatusLevel::Info => MessageLevel::Info,
        StatusLevel::Warning => MessageLevel::Warning,
        StatusLevel::Error => MessageLevel::Error,
    }
}

impl From<StatusLevel> for MessageLevel {
    fn from(level: StatusLevel) -> (r: Self)
        ensures
            r == level_for(level),
    {
        match level {
            StatusLevel::Info => MessageLevel::Info,
            StatusLevel::Warning => MessageLevel::Warning,
            StatusLevel::Error => MessageLevel::Error,
        }
    }
}

impl vstd::std_specs::convert::FromSpecImpl<StatusLevel> for MessageLevel {
    open spec fn obeys_from_spec() -> bool {
        true
    }

    open spec fn from_spec(level: StatusLevel) -> Self {
        level_for(level)
    }
}

/// The style class of a message level.
pub open spec fn message_class(level: MessageLevel) -> Seq<char> {
    match level {
        MessageLevel::Info => "message-text"@,
        MessageLevel::Warning => "message-text warning"@,
        MessageLevel::Error => "message-text error"@,
    }
}

/// The style class of a message level.
pub fn get_message_class(level: MessageLevel) -> (r: &'static str)
    ensures
        r@ == message_class(level),
{
    match level {
        MessageLevel::Info => "message-text",
        MessageLevel::Warning => "message-text warning",
        MessageLevel::Error => "message-text error",
    }
}

/// The message for a result; the same table serves every layer.
pub fn get_message_from_result(result: &ProcessResult) -> (r: String)
    ensures
        r@ == message_of(result.code),
{
    result.message()
}

/// Why text cannot be saved.
#[derive(Debug, Clone, PartialEq)]
pub enum SaveValidationError {
    /// Nothing but whitespace.
    EmptyContent,
    /// Longer than allowed, with the length found.
    ContentTooLarge(usize),
    /// The slots refused, or none is free.
    StorageError(StorageError),
}

impl SaveValidationError {
    /// The outcome that reports this error.
    pub fn to_process_result(&self) -> (r: ProcessResult)
        ensures
            r.wf(),
            *self == SaveValidationError::EmptyContent ==> r.code == ErrorCode::ValidationEmpty,
            *self matches SaveValidationError::ContentTooLarge(n) ==> r.code
                == (ErrorCode::StorageInputLimit { actual: n, max: MAX_CHARS }),
            *self matches SaveValidationError::StorageError(e) ==> storage_error_code(e, r.code),
    {
        match self {
            SaveValidationError::EmptyContent => ProcessResult::new(ErrorCode::ValidationEmpty),
            SaveValidationError::ContentTooLarge(n) => ProcessResult::new(
                ErrorCode::StorageInputLimit { actual: *n, max: MAX_CHARS },
            ),
            SaveValidationError::StorageError(e) => storage_error_to_result(e, None),
        }
    }
}

/// The slot that a save of `text` goes to: the first empty one. Blank or
/// overlong text is refused, and so is a save when every slot is taken.
pub fn choose_save_slot<B: StorageBackend>(text: &str, service: &StorageService<B>) -> (r: Result<
    usize,
    SaveValidationError,
>)
    ensures
        is_blank(text@) ==> r == Err::<usize, SaveValidationError>(SaveValidationError::EmptyContent),
        !is_blank(text@) && text@.len() > MAX_CHARS ==> r == Err::<usize, SaveValidationError>(
            SaveValidationError::ContentTooLarge(text@.len() as usize),
        ),
        r matches Ok(n) ==> !is_blank(text@) && text@.len() <= MAX_CHARS && valid_slot(n as int)
            && !service.taken(n as nat) && slots_taken_below(
            service.records(),
            service.unreadable(),
            n as int,
        ),
        !is_blank(text@) && text@.len() <= MAX_CHARS && slots_taken_below(
            service.records(),
            service.unreadable(),
            11,
        ) ==> r == Err::<usize, SaveValidationError>(
            SaveValidationError::StorageError(StorageError::SlotsFull),
        ),
        !is_blank(text@) && text@.len() <= MAX_CHARS && !slots_taken_below(
            service.records(),
            service.unreadable(),
            11,
        ) ==> r is Ok,
{
    if is_blank_str(text) {
        return Err(SaveValidationError::EmptyContent);
    }
    let len = text.unicode_len();
    if len > MAX_CHARS {
        return Err(SaveValidationError::ContentTooLarge(len));
    }
    match service.find_empty_slot() {
        Ok(n) => {
            assert(!slots_taken_below(service.records(), service.unreadable(), 11)) by {
                let m: int = n as int;
                assert(1 <= m < 11);
                assert(slot_key(m as nat) == slot_key(n as nat));
                if slots_taken_below(service.records(), service.unreadable(), 11) {
                    assert(is_taken(service.records(), service.unreadable(), slot_key(m as nat)));
                }
            }
            Ok(n)
        },
        Err(e) => Err(SaveValidationError::StorageError(e)),
    }
}

/// Saves `text` to slot `slot` and reports how it went.
pub fn save_and_report<B: StorageBackend>(
    service: &mut StorageService<B>,
    slot: usize,
    text: &str,
) -> (r: ProcessResult)
    ensures
        r.wf(),
        r.code is SaveSuccess ==> r.code == (ErrorCode::SaveSuccess { slot_number: slot as u8 })
            && valid_slot(slot as int),
        r.code is SaveSuccess ==> ({
            let key = slot_key(slot as nat);
            &&& final(service).records().contains_key(key)
            &&& final(service).records()[key].content == text@
            &&& final(service).records() == old(service).records().insert(
                key,
                final(service).records()[key],
            )
            &&& final(service).unreadable() == old(service).unreadable().remove(key)
        }),
        !(r.code is SaveSuccess) ==> final(service).records() == old(service).records()
            && final(service).unreadable() == old(service).unreadable(),
        valid_slot(slot as int) && old(service).fits(slot as nat) ==> r.code is SaveSuccess,
        valid_slot(slot as int) && !old(service).fits(slot as nat) ==> storage_error_code(
            StorageError::QuotaExceeded,
            r.code,
        ),
        !valid_slot(slot as int) ==> storage_error_code(
            StorageError::InvalidSlotNumber(slot),
            r.code,
        ),
{
    match service.save_to_slot(slot, text) {
        Ok(()) => ProcessResult::new(ErrorCode::SaveSuccess { slot_number: slot as u8 }),
        Err(e) => storage_error_to_result(&e, None),
    }
}

/// The message for a load from an empty slot.
pub open spec fn empty_slot_reason() -> Seq<char> {
    "スロットにデータがありません"@
}

/// Loads slot `slot`: the text, if any, and how it went. An empty slot is
/// reported as a read failure.
pub fn load_and_report<B: StorageBackend>(service: &StorageService<B>, slot: usize) -> (r: (
    Option<String>,
    ProcessResult,
))
    ensures
        r.1.wf(),
        valid_slot(slot as int) && service.records().contains_key(slot_key(slot as nat)) ==> (r.0 matches Some(
            t,
        ) && t@ == service.records()[slot_key(slot as nat)].content),
        valid_slot(slot as int) && service.records().contains_key(slot_key(slot as nat)) ==> r.1.code
            == (ErrorCode::LoadSuccess { slot_number: slot as u8 }),
        !(valid_slot(slot as int) && service.records().contains_key(slot_key(slot as nat))) ==> r.0 is None,
        valid_slot(slot as int) && !service.taken(slot as nat) ==> (r.1.code matches ErrorCode::StorageReadError {
            reason,
        } && reason@ == empty_slot_reason()),
        valid_slot(slot as int) && !service.records().contains_key(slot_key(slot as nat))
            && service.unreadable().contains(slot_key(slot as nat)) ==> r.1.code is StorageReadError,
        !valid_slot(slot as int) ==> storage_error_code(StorageError::InvalidSlotNumber(slot), r.1.code),
{
    match service.load_from_slot(slot) {
        Ok(Some(text)) => (
            Some(text),
            ProcessResult::new(ErrorCode::LoadSuccess { slot_number: slot as u8 }),
        ),
        Ok(None) => (
            None,
            ProcessResult::new(
                ErrorCode::StorageReadError { reason: String::from_str("スロットにデータがありません") },
            ),
        ),
        Err(e) => (None, storage_error_to_result(&e, None)),
    }
}

/// Empties slot `slot` and reports how it went.
pub fn delete_and_report<B: StorageBackend>(service: &mut StorageService<B>, slot: usize) -> (r:
    ProcessResult)
    ensures
        r.wf(),
        valid_slot(slot as int) ==> r.code == (ErrorCode::DeleteSuccess { slot_number: slot as u8 }),
        valid_slot(slot as int) ==> final(service).records() == old(service).records().remove(
            slot_key(slot as nat),
        ) && final(service).unreadable() == old(service).unreadable().remove(slot_key(slot as nat)),
        !valid_slot(slot as int) ==> storage_error_code(StorageError::InvalidSlotNumber(slot), r.code),
        !valid_slot(slot as int) ==> final(service).records() == old(service).records()
            && final(service).unreadable() == old(service).unreadable(),
{
    match service.delete_slot(slot) {
        Ok(()) => ProcessResult::new(ErrorCode::DeleteSuccess { slot_number: slot as u8 }),
        Err(e) => storage_error_to_result(&e, None),
    }
}

/// Errors of the editor's own display.
#[derive(Debug, Clone)]
pub enum UiError {
    StorageError(String),
    RenderError(String),
}

impl UiError {
    /// A description of the error for the user.
    pub fn to_string(&self) -> (r: String)
        ensures
            self matches UiError::StorageError(m) ==> r@ == "ストレージエラー: "@ + m@,
            self matches UiError::RenderError(m) ==> r@ == "描画エラー: "@ + m@,
    {
        let (prefix, m) = match self {
            UiError::StorageError(m) => ("ストレージエラー: ", m),
            UiError::RenderError(m) => ("描画エラー: ", m),
        };
        let mut r = String::from_str(prefix);
        r.append(m.as_str());
        r
    }
}

} // verus!
