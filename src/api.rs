//! The browser's view of the conversion service: what an exchange with the
//! service means for the caller.
use vstd::prelude::*;

use crate::models::{message_of, ConvertResponse, ErrorCode, ProcessResult};
use crate::text::{decimal, decimal_string};

verus! {

/// Why a call to the conversion service gave no image.
#[derive(Debug, Clone)]
pub enum ApiError {
    /// The service could not be reached, or its answer not read.
    NetworkError(String),
    /// The service answered with an HTTP error.
    ServerError(String),
    /// The service reported an outcome without an image.
    ProcessError(ErrorCode),
}

/// The description of an API error.
pub open spec fn api_error_text(e: ApiError) -> Seq<char> {
    match e {
        ApiError::NetworkError(m) => "ネットワークエラー: "@ + m@,
        ApiError::ServerError(m) => "サーバーエラー: "@ + m@,
        ApiError::ProcessError(code) => "処理エラー: "@ + message_of(code),
    }
}

impl ApiError {
    /// The error for a result that the service reported.
    pub fn from_process_result(result: ProcessResult) -> (r: Self)
        ensures
            r == ApiError::ProcessError(result.code),
    {
        ApiError::ProcessError(result.code)
    }

    /// A description of the error for the user.
    pub fn to_string(&self) -> (r: String)
        ensures
            r@ == api_error_text(*self),
    {
        let (prefix, detail) = match self {
            ApiError::NetworkError(m) => ("ネットワークエラー: ", m.clone()),
            ApiError::ServerError(m) => ("サーバーエラー: ", m.clone()),
            ApiError::ProcessError(code) => ("処理エラー: ", code.to_message()),
        };
        let mut r = String::from_str(prefix);
        r.append(detail.as_str());
        r
    }
}

/// What a call to the conversion service brought back.
#[derive(Debug)]
pub enum ApiReply {
    /// No answer: the service could not be reached.
    Unreachable,
    /// An answer with an HTTP status other than success.
    HttpError { status: u16 },
    /// A success status, but a body that is not an answer.
    Unreadable,
    /// The answer.
    Answer(ConvertResponse),
}

/// The message for a service that does not answer.
pub open spec fn no_answer_text() -> Seq<char> {
    "サーバーが応答していません。時間をおいて再度接続を試すか管理者に問い合わせてください。"@
}

/// The message for an answer that cannot be read.
pub open spec fn unreadable_text() -> Seq<char> {
    "レスポンスの解析に失敗しました。"@
}

/// What a reply means for the caller: the image with its result, or why
/// there is none.
pub fn interpret_reply(reply: ApiReply) -> (r: Result<(Vec<u8>, ProcessResult), ApiError>)
    ensures
        reply is Unreachable ==> (r matches Err(ApiError::NetworkError(m)) && m@ == no_answer_text()),
        reply matches ApiReply::HttpError { status } ==> (r matches Err(ApiError::ServerError(m))
            && m@ == "HTTPエラー: "@ + decimal(status as nat)),
        reply is Unreadable ==> (r matches Err(ApiError::NetworkError(m)) && m@ == unreadable_text()),
        reply matches ApiReply::Answer(resp) ==> (resp.image_data matches Some(data) ==> r == Ok::<
            (Vec<u8>, ProcessResult),
            ApiError,
        >((data, resp.result))),
        reply matches ApiReply::Answer(resp) ==> (resp.image_data is None ==> r == Err::<
            (Vec<u8>, ProcessResult),
            ApiError,
        >(ApiError::ProcessError(resp.result.code))),
{
    match reply {
        ApiReply::Unreachable => Err(
            ApiError::NetworkError(
                String::from_str(
                    "サーバーが応答していません。時間をおいて再度接続を試すか管理者に問い合わせてください。",
                ),
            ),
        ),
        ApiReply::HttpError { status } => {
            let mut m = String::from_str("HTTPエラー: ");
            m.append(decimal_string(status as u64).as_str());
            Err(ApiError::ServerError(m))
        },
        ApiReply::Unreadable => Err(
            ApiError::NetworkError(String::from_str("レスポンスの解析に失敗しました。")),
        ),
        ApiReply::Answer(resp) => match resp.image_data {
            Some(data) => Ok((data, resp.result)),
            None => Err(ApiError::from_process_result(resp.result)),
        },
    }
}

} // verus!
