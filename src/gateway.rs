//! Handling of conversion and export requests: validate, render, answer.
//!
//! A request is handled in two steps around the one fetch from the renderer:
//! `begin_request` either answers at once or names the URL to fetch, and
//! `finish_request` turns what the fetch brought back into the answer.
use vstd::prelude::*;

use crate::models::{severity, ConvertRequest, ConvertResponse, ErrorCode};
use crate::render::{deflate_encoding, is_encoding_failure, render_url, success_body, transport_error, PlantUmlClient, TransportOutcome};
use crate::validation::{validation_code, validation_of};

verus! {

/// What the caller asked for; both render the diagram the same way.
#[derive(Debug, Clone, Copy, PartialEq, Eq, Structural)]
pub enum Operation {
    Convert,
    Export,
}

/// The outcome that reports a finished operation.
pub open spec fn success_code(op: Operation) -> ErrorCode {
    match op {
        Operation::Convert => ErrorCode::ConversionOk,
        Operation::Export => ErrorCode::ExportOk,
    }
}

/// The next step of a request.
#[derive(Debug)]
pub enum GatewayStep {
    /// The request is answered without rendering.
    Respond(ConvertResponse),
    /// The renderer is to be asked at this URL.
    Fetch(String),
}

/// Validates the request and, when it passes, names the URL to fetch from
/// the renderer. A request that fails validation is answered at once, and
/// the renderer is not asked.
pub fn begin_request(client: &PlantUmlClient, request: &ConvertRequest) -> (r: GatewayStep)
    ensures
        validation_of(request.plantuml_text@) matches Err(e) ==> (r matches GatewayStep::Respond(
            resp,
        ) && (resp.result.code == validation_code(e) && resp.image_data is None && resp.wf())),
        validation_of(request.plantuml_text@) is Ok ==> (deflate_encoding(request.plantuml_text@) matches Some(
            e,
        ) ==> (r matches GatewayStep::Fetch(url) && url@ == render_url(client.base(), request.format, e))),
        validation_of(request.plantuml_text@) is Ok ==> (deflate_encoding(request.plantuml_text@) is None
            ==> (r matches GatewayStep::Respond(resp) && (is_encoding_failure(resp.result.code)
            && resp.image_data is None && resp.wf()))),
{
    match request.validate() {
        Err(e) => GatewayStep::Respond(ConvertResponse::error(e.to_error_code())),
        Ok(()) => match client.request_url(request.plantuml_text.as_str(), request.format) {
            Ok(url) => GatewayStep::Fetch(url),
            Err(code) => GatewayStep::Respond(ConvertResponse::error(code)),
        },
    }
}

/// The answer to a request, from what the fetch from the renderer brought
/// back: the image with the operation's success outcome for any 2xx
/// response, or else the classified failure without image data.
pub fn finish_request(client: &PlantUmlClient, op: Operation, outcome: TransportOutcome) -> (r:
    ConvertResponse)
    ensures
        r.wf(),
        success_body(outcome) matches Some(b) ==> r.result.code == success_code(op),
        success_body(outcome) matches Some(b) ==> (r.image_data matches Some(data) && data@ == b),
        success_body(outcome) is None ==> (r.image_data is None && transport_error(
            client.base(),
            client.timeout(),
            outcome,
            r.result.code,
        )),
        r.result.level == severity(r.result.code),
{
    match client.classify(outcome) {
        Ok(data) => {
            let code = match op {
                Operation::Convert => ErrorCode::ConversionOk,
                Operation::Export => ErrorCode::ExportOk,
            };
            ConvertResponse::success(data, code)
        },
        Err(code) => ConvertResponse::error(code),
    }
}

} // verus!
