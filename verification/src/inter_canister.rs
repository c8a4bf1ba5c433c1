//! Shaping the request and the response of a call to another service.
//!
//! The call itself is the embedding service's business. What is decided
//! here is what goes out, and what the caller gets back: the decoded reply,
//! the rejection as it came, or an error that names the service and the
//! method when encoding or decoding failed.

use crate::identity::Identity;
use candid::Principal;
use vstd::prelude::*;

verus! {

/// Why a call to another service was rejected.
#[derive(Clone, Copy, Debug, PartialEq, Eq, Structural)]
pub enum RejectionCode {
    NoError,
    SysFatal,
    SysTransient,
    DestinationInvalid,
    CanisterReject,
    CanisterError,
    Unknown,
}

/// What a call gives: the reply, or the rejection code with a message.
pub type CallResult<R> = Result<R, (RejectionCode, String)>;

/// The textual form that `candid::Principal::to_text` gives the principal
/// with the given bytes.
pub uninterp spec fn principal_text(bytes: Seq<u8>) -> Seq<char>;

/// What the `Debug` formatting of `str` makes of a text: the text in
/// double quotes, with its special characters escaped.
pub uninterp spec fn debug_text(text: Seq<char>) -> Seq<char>;

/// Calls `candid::Principal::to_text` on the principal with the given
/// bytes.
#[verifier::external_body]
fn principal_to_text(bytes: &[u8]) -> (text: String)
    requires
        bytes@.len() <= 29,
    ensures
        text@ == principal_text(bytes@),
{
    Principal::from_slice(bytes).to_text()
}

/// Formats a text with `{:?}`.
#[verifier::external_body]
fn str_debug(text: &str) -> (quoted: String)
    ensures
        quoted@ == debug_text(text@),
{
    format!("{:?}", text)
}

/// The message of a failure to encode or decode: `kind`, ` Error calling `,
/// the quoted text of the service's id, the quoted method name, a colon and
/// what went wrong.
pub open spec fn failure_text(
    kind: Seq<char>,
    id_text: Seq<char>,
    method_text: Seq<char>,
    error: Seq<char>,
) -> Seq<char> {
    kind + " Error calling "@ + id_text + " "@ + method_text + ": "@ + error
}

/// Builds the message of a failure to encode or decode from the quoted
/// texts of the service's id and of the method name.
pub fn failure_message(kind: &str, id_text: &str, method_text: &str, error: &str) -> (r: String)
    ensures
        r@ == failure_text(kind@, id_text@, method_text@, error@),
{
    let mut message = String::from_str(kind);
    message.append(" Error calling ");
    message.append(id_text);
    message.append(" ");
    message.append(method_text);
    message.append(": ");
    message.append(error);
    message
}

/// The error of a call that failed before or after the wire: the code says
/// that the fault is the callee's, the message names the callee and the
/// method.
fn call_failure(kind: &str, canister_id: &Identity, method_name: &str, error: &str) -> (r: (
    RejectionCode,
    String,
))
    ensures
        r.0 == RejectionCode::CanisterError,
        r.1@ == failure_text(
            kind@,
            debug_text(principal_text(canister_id@)),
            debug_text(method_name@),
            error@,
        ),
{
    let id_text = principal_to_text(canister_id.as_slice());
    let quoted_id = str_debug(id_text.as_str());
    let quoted_method = str_debug(method_name);
    (
        RejectionCode::CanisterError,
        failure_message(kind, quoted_id.as_str(), quoted_method.as_str(), error),
    )
}

/// Encodes the arguments of a call with `serializer`. If that fails, the
/// result is a `CanisterError` whose message starts with `SER Error
/// calling` and names the service and the method.
pub fn prepare_request<A, S: Fn(A) -> Result<Vec<u8>, String>>(
    canister_id: &Identity,
    method_name: &str,
    args: A,
    serializer: S,
) -> (r: CallResult<Vec<u8>>)
    requires
        call_requires(serializer, (args,)),
    ensures
        exists|encoded: Result<Vec<u8>, String>| #[trigger]
            call_ensures(serializer, (args,), encoded) && request_outcome(
                canister_id@,
                method_name@,
                encoded,
                r,
            ),
{
    let encoded = serializer(args);
    let r = request_of(canister_id, method_name, encoded);
    r
}

/// What `prepare_request` makes of the serializer's result.
pub open spec fn request_outcome(
    id: Seq<u8>,
    method: Seq<char>,
    encoded: Result<Vec<u8>, String>,
    r: CallResult<Vec<u8>>,
) -> bool {
    match encoded {
        Ok(bytes) => r == Ok::<Vec<u8>, (RejectionCode, String)>(bytes),
        Err(error) => {
            &&& r is Err
            &&& r->Err_0.0 == RejectionCode::CanisterError
            &&& r->Err_0.1@ == failure_text(
                "SER"@,
                debug_text(principal_text(id)),
                debug_text(method),
                error@,
            )
        },
    }
}

/// The request for a call, given what the serializer made of the
/// arguments.
pub fn request_of(canister_id: &Identity, method_name: &str, encoded: Result<Vec<u8>, String>) -> (r:
    CallResult<Vec<u8>>)
    ensures
        request_outcome(canister_id@, method_name@, encoded, r),
{
    match encoded {
        Ok(bytes) => Ok(bytes),
        Err(error) => Err(call_failure("SER", canister_id, method_name, error.as_str())),
    }
}

/// What `process_response` makes of a rejection, or of a reply and the
/// deserializer's result for it.
pub open spec fn response_outcome<T>(
    id: Seq<u8>,
    method: Seq<char>,
    decoded: Result<T, String>,
    r: CallResult<T>,
) -> bool {
    match decoded {
        Ok(value) => r == Ok::<T, (RejectionCode, String)>(value),
        Err(error) => {
            &&& r is Err
            &&& r->Err_0.0 == RejectionCode::CanisterError
            &&& r->Err_0.1@ == failure_text(
                "DES"@,
                debug_text(principal_text(id)),
                debug_text(method),
                error@,
            )
        },
    }
}

/// The result of a call whose reply arrived, given what the deserializer
/// made of the reply.
pub fn response_of<T>(canister_id: &Identity, method_name: &str, decoded: Result<T, String>) -> (r:
    CallResult<T>)
    ensures
        response_outcome(canister_id@, method_name@, decoded, r),
{
    match decoded {
        Ok(value) => Ok(value),
        Err(error) => Err(call_failure("DES", canister_id, method_name, error.as_str())),
    }
}

/// Turns the raw response of a call into its result. A rejection is
/// handed on as it came. A reply is decoded with `deserializer`; if that
/// fails, the result is a `CanisterError` whose message starts with `DES
/// Error calling` and names the service and the method.
pub fn process_response<T, D: Fn(&[u8]) -> Result<T, String>>(
    canister_id: &Identity,
    method_name: &str,
    response: CallResult<Vec<u8>>,
    deserializer: D,
) -> (r: CallResult<T>)
    requires
        forall|bytes: &[u8]| call_requires(deserializer, (bytes,)),
    ensures
        response matches Err(rejection) ==> r == Err::<T, (RejectionCode, String)>(rejection),
        response matches Ok(reply) ==> (exists|bytes: &[u8], decoded: Result<T, String>|
            bytes@ == reply@ && #[trigger] call_ensures(deserializer, (bytes,), decoded)
                && response_outcome(canister_id@, method_name@, decoded, r)),
{
    match response {
        Ok(reply) => {
            let decoded = deserializer(reply.as_slice());
            response_of(canister_id, method_name, decoded)
        },
        Err(rejection) => Err(rejection),
    }
}

} // verus!
