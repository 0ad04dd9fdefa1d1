//! The client side of the external renderer: the request path for a diagram,
//! and the classification of what the transport brought back.
use vstd::prelude::*;

use crate::models::{ErrorCode, ImageFormat};

verus! {

/// The error type of plantuml_encoding, carried only to be mapped to an outcome.
#[verifier::external_type_specification]
#[verifier::external_body]
pub struct ExFromPlantumlError(plantuml_encoding::FromPlantumlError);

/// The deflate text encoding of diagram source that the renderer reads from
/// a request path, or `None` where the encoder fails on the text.
pub uninterp spec fn deflate_encoding(text: Seq<char>) -> Option<Seq<char>>;

/// Whether `c` may stand in a URL path segment unescaped.
pub open spec fn is_url_safe(c: char) -> bool {
    ||| '0' <= c <= '9'
    ||| 'A' <= c <= 'Z'
    ||| 'a' <= c <= 'z'
    ||| c == '-'
    ||| c == '_'
}

/// Whether every character of `s` may stand in a URL path segment.
pub open spec fn url_safe_text(s: Seq<char>) -> bool {
    forall|i: int| 0 <= i < s.len() ==> is_url_safe(#[trigger] s[i])
}

/// Relies on plantuml_encoding::encode_plantuml_deflate: it compresses the
/// UTF-8 bytes of the text at a fixed level, so the outcome depends on the
/// text alone, and writes each six bits as one of the characters 0-9, A-Z,
/// a-z, '-', '_'.
#[verifier::external_body]
fn encode_deflate(text: &str) -> (r: Result<String, plantuml_encoding::FromPlantumlError>)
    ensures
        r matches Ok(s) ==> deflate_encoding(text@) == Some(s@) && url_safe_text(s@),
        r is Err ==> deflate_encoding(text@) is None,
{
    plantuml_encoding::encode_plantuml_deflate(text)
}

/// The name of the text encoding, as reported when it fails.
pub open spec fn encoding_name() -> Seq<char> {
    "deflate"@
}

/// Whether `e` reports a failure of the text encoding.
pub open spec fn is_encoding_failure(e: ErrorCode) -> bool {
    e matches ErrorCode::EncodingError { encoding } && encoding@ == encoding_name()
}

/// Encodes diagram source for a request path.
pub fn encode(text: &str) -> (r: Result<String, ErrorCode>)
    ensures
        deflate_encoding(text@) matches Some(e) ==> (r matches Ok(s) && s@ == e),
        deflate_encoding(text@) is None ==> (r matches Err(e) && is_encoding_failure(e)),
        r matches Ok(s) ==> url_safe_text(s@),
{
    match encode_deflate(text) {
        Ok(s) => Ok(s),
        Err(_) => Err(ErrorCode::EncodingError { encoding: String::from_str("deflate") }),
    }
}

/// The path segment that selects an output format.
pub open spec fn format_segment(format: ImageFormat) -> Seq<char> {
    match format {
        ImageFormat::Png => "png"@,
        ImageFormat::Svg => "svg"@,
    }
}

/// The request URL for rendering the encoded text `encoded` in `format` at `base`.
pub open spec fn render_url(base: Seq<char>, format: ImageFormat, encoded: Seq<char>) -> Seq<char> {
    base + "/"@ + format_segment(format) + "/"@ + encoded
}

/// What the transport brought back for a render request.
#[derive(Debug)]
pub enum TransportOutcome {
    /// The renderer answered.
    Response { status: u16, body: Vec<u8> },
    /// No connection could be made (refused, or the name did not resolve).
    ConnectFailed,
    /// No answer came within the timeout.
    TimedOut,
    /// Any other failure of the transport.
    Failed { message: String },
}

/// The image data of an outcome: the body of any 2xx response.
pub open spec fn success_body(outcome: TransportOutcome) -> Option<Seq<u8>> {
    match outcome {
        TransportOutcome::Response { status, body } => if 200 <= status <= 299 {
            Some(body@)
        } else {
            None
        },
        _ => None,
    }
}

/// Whether `e` is the classification of a failed outcome, for the renderer
/// at `base` and the timeout `timeout_ms`.
pub open spec fn transport_error(
    base: Seq<char>,
    timeout_ms: u64,
    outcome: TransportOutcome,
    e: ErrorCode,
) -> bool {
    match outcome {
        TransportOutcome::Response { .. } | TransportOutcome::ConnectFailed => e matches ErrorCode::NetworkError { endpoint } && endpoint@ == base,
        TransportOutcome::TimedOut => e == ErrorCode::TimeoutError { duration_ms: timeout_ms },
        TransportOutcome::Failed { message } => e matches ErrorCode::ServerError { message: m } && m@ == message@,
    }
}

/// The time after which a render request is abandoned.
pub const RENDER_TIMEOUT_MS: u64 = 30000;

/// Where the renderer is, and how long a request may take.
pub struct PlantUmlClient {
    base_url: String,
    timeout_ms: u64,
}

impl PlantUmlClient {
    /// The renderer's base URL.
    pub closed spec fn base(&self) -> Seq<char> {
        self.base_url@
    }

    /// The timeout of a request, in milliseconds.
    pub closed spec fn timeout(&self) -> u64 {
        self.timeout_ms
    }

    /// A client for the renderer at `base_url`, with the default timeout.
    pub fn new(base_url: String) -> (r: Self)
        ensures
            r.base() == base_url@,
            r.timeout() == RENDER_TIMEOUT_MS,
    {
        PlantUmlClient { base_url, timeout_ms: RENDER_TIMEOUT_MS }
    }

    /// The timeout of a request, in milliseconds.
    pub fn timeout_ms(&self) -> (r: u64)
        ensures
            r == self.timeout(),
    {
        self.timeout_ms
    }

    /// The URL to fetch to render `text` in `format`: the base URL, the
    /// format, and the encoded text, as path segments.
    pub fn request_url(&self, text: &str, format: ImageFormat) -> (r: Result<String, ErrorCode>)
        ensures
            deflate_encoding(text@) matches Some(e) ==> (r matches Ok(u) && u@ == render_url(
                self.base(),
                format,
                e,
            )),
            deflate_encoding(text@) matches Some(e) ==> url_safe_text(e),
            deflate_encoding(text@) is None ==> (r matches Err(e) && is_encoding_failure(e)),
    {
        let encoded = encode(text)?;
        let mut url = self.base_url.clone();
        url.append("/");
        match format {
            ImageFormat::Png => url.append("png"),
            ImageFormat::Svg => url.append("svg"),
        }
        url.append("/");
        url.append(encoded.as_str());
        Ok(url)
    }

    /// Classifies what the transport brought back. Any 2xx response is a
    /// rendered image, whatever its body shows; a refused connection or
    /// another status means the renderer is unreachable; a timeout and any
    /// other transport failure are reported as such. Nothing is retried.
    pub fn classify(&self, outcome: TransportOutcome) -> (r: Result<Vec<u8>, ErrorCode>)
        ensures
            success_body(outcome) matches Some(b) ==> (r matches Ok(data) && data@ == b),
            success_body(outcome) is None ==> (r matches Err(e) && transport_error(
                self.base(),
                self.timeout(),
                outcome,
                e,
            )),
    {
        match outcome {
            TransportOutcome::Response { status, body } => {
                if 200 <= status && status <= 299 {
                    Ok(body)
                } else {
                    Err(ErrorCode::NetworkError { endpoint: self.base_url.clone() })
                }
            },
            TransportOutcome::ConnectFailed => Err(
                ErrorCode::NetworkError { endpoint: self.base_url.clone() },
            ),
            TransportOutcome::TimedOut => Err(ErrorCode::TimeoutError { duration_ms: self.timeout_ms }),
            TransportOutcome::Failed { message } => Err(ErrorCode::ServerError { message }),
        }
    }
}

} // verus!
