//! The request handler's decision core: from the current secret, the supplied
//! signature header and the raw body bytes to a verification outcome, and
//! from the outcome to the HTTP status code and JSON response body. The
//! transport layer only extracts the header and the unmodified body bytes and
//! writes the response back.

use vstd::prelude::*;

verus! {

use crate::signature::{spec_verify, verify};

/// The outcome of evaluating one request: accepted, or rejected with the
/// reason. Rejections never carry the expected signature or the secret.
#[derive(Clone, Copy, Debug, PartialEq, Eq, Structural)]
pub enum VerificationOutcome {
    /// The supplied signature matches the body under the current secret.
    Accepted,
    /// No signature header was supplied; verification was not attempted.
    MissingSignature,
    /// A signature was supplied but does not match.
    InvalidSignature,
}

/// The outcome owed to a request: a missing header is rejected before any
/// verification, a supplied signature is accepted exactly when it matches.
pub open spec fn spec_evaluate(
    secret: Seq<u8>,
    header: Option<Seq<char>>,
    body: Seq<u8>,
) -> VerificationOutcome {
    match header {
        Option::None => VerificationOutcome::MissingSignature,
        Option::Some(sig) => if spec_verify(secret, body, sig) {
            VerificationOutcome::Accepted
        } else {
            VerificationOutcome::InvalidSignature
        },
    }
}

/// Evaluates one request: `header` is the signature header when present, and
/// `body` the exact bytes of the request body as transmitted.
pub fn evaluate_request(secret: &[u8], header: Option<&str>, body: &[u8]) -> (out:
    VerificationOutcome)
    ensures
        out == spec_evaluate(secret@, header.deep_view(), body@),
{
    match header {
        Option::None => VerificationOutcome::MissingSignature,
        Option::Some(sig) => {
            if verify(secret, body, sig) {
                VerificationOutcome::Accepted
            } else {
                VerificationOutcome::InvalidSignature
            }
        },
    }
}

/// The JSON body of an accepted request.
pub open spec fn success_body() -> Seq<char> {
    "{\"success\":true}"@
}

/// The JSON body of a request whose signature does not match.
pub open spec fn invalid_signature_body() -> Seq<char> {
    "{\"success\":false,\"error\":\"Invalid signature\"}"@
}

/// The JSON body of a request that carried no signature header.
pub open spec fn missing_signature_body() -> Seq<char> {
    "{\"success\":false,\"error\":\"Missing signature header\"}"@
}

/// The HTTP status owed to an outcome: 200 on acceptance, 400 on any
/// rejection.
pub open spec fn spec_status(out: VerificationOutcome) -> u16 {
    if out == VerificationOutcome::Accepted {
        200u16
    } else {
        400u16
    }
}

/// The JSON response body owed to an outcome.
pub open spec fn spec_body(out: VerificationOutcome) -> Seq<char> {
    match out {
        VerificationOutcome::Accepted => success_body(),
        VerificationOutcome::MissingSignature => missing_signature_body(),
        VerificationOutcome::InvalidSignature => invalid_signature_body(),
    }
}

/// Maps an outcome to its HTTP status code.
pub fn response_status(out: VerificationOutcome) -> (status: u16)
    ensures
        status == spec_status(out),
{
    if out == VerificationOutcome::Accepted {
        200
    } else {
        400
    }
}

/// Maps an outcome to its JSON response body.
pub fn response_body(out: VerificationOutcome) -> (body: String)
    ensures
        body@ == spec_body(out),
{
    match out {
        VerificationOutcome::Accepted => "{\"success\":true}".to_owned(),
        VerificationOutcome::MissingSignature => {
            "{\"success\":false,\"error\":\"Missing signature header\"}".to_owned()
        },
        VerificationOutcome::InvalidSignature => {
            "{\"success\":false,\"error\":\"Invalid signature\"}".to_owned()
        },
    }
}

/// The whole decision of one verification request: status code and JSON body
/// from the secret, the signature header and the raw body bytes.
pub fn webhook_response(secret: &[u8], header: Option<&str>, body: &[u8]) -> (resp: (u16, String))
    ensures
        resp.0 == spec_status(spec_evaluate(secret@, header.deep_view(), body@)),
        resp.1@ == spec_body(spec_evaluate(secret@, header.deep_view(), body@)),
{
    let out = evaluate_request(secret, header, body);
    let status = response_status(out);
    let body_text = response_body(out);
    (status, body_text)
}

/// The liveness route's response: always 200 with the success body, whatever
/// the secret state. It takes no input, so it cannot depend on any.
pub fn hello_response() -> (resp: (u16, String))
    ensures
        resp.0 == 200,
        resp.1@ == success_body(),
{
    (200, "{\"success\":true}".to_owned())
}

} // verus!
