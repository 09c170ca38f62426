//! Shared RPC contract: status codes, error statuses and the not-found message.
use vstd::prelude::*;

verus! {

/// The status classes of the RPC protocol.
#[derive(Clone, Copy, Debug, PartialEq, Eq, Structural)]
pub enum RpcCode {
    Success,
    Cancelled,
    Unknown,
    InvalidArgument,
    DeadlineExceeded,
    NotFound,
    AlreadyExists,
    PermissionDenied,
    ResourceExhausted,
    FailedPrecondition,
    Aborted,
    OutOfRange,
    Unimplemented,
    Internal,
    Unavailable,
    DataLoss,
    Unauthenticated,
}

/// A failed RPC: its status class and a human-readable message.
#[derive(Debug)]
pub struct RpcStatus {
    pub code: RpcCode,
    pub message: String,
}

/// The text that precedes the key in a not-found message.
pub open spec fn not_found_prefix() -> Seq<char> {
    seq!['V', 'a', 'l', 'u', 'e', ' ', 'f', 'o', 'r', ' ', 'k', 'e', 'y', ':', ' ']
}

/// The text that follows the key in a not-found message.
pub open spec fn not_found_suffix() -> Seq<char> {
    seq![' ', 'n', 'o', 't', ' ', 'f', 'o', 'u', 'n', 'd', '.']
}

/// `Value for key: {key} not found.`
pub open spec fn not_found_text(key: Seq<char>) -> Seq<char> {
    not_found_prefix() + key + not_found_suffix()
}

/// The status a lookup of an absent `key` fails with.
pub open spec fn is_not_found_status(s: RpcStatus, key: Seq<char>) -> bool {
    s.code == RpcCode::NotFound && s.message@ == not_found_text(key)
}

/// Builds the message `Value for key: {key} not found.`.
pub fn not_found_message(key: &str) -> (r: String)
    ensures
        r@ == not_found_text(key@),
{
    let prefix = "Value for key: ";
    let suffix = " not found.";
    proof {
        reveal_strlit("Value for key: ");
        reveal_strlit(" not found.");
    }
    let r = String::from_str(prefix).concat(key).concat(suffix);
    assert(prefix@ =~= not_found_prefix());
    assert(suffix@ =~= not_found_suffix());
    r
}

/// The status with which a lookup of the absent `key` fails.
pub fn not_found_status(key: &str) -> (r: RpcStatus)
    ensures
        is_not_found_status(r, key@),
{
    RpcStatus { code: RpcCode::NotFound, message: not_found_message(key) }
}

/// The message of a not-found status holds the key itself, verbatim.
pub proof fn lemma_not_found_message_holds_key(key: Seq<char>)
    ensures
        not_found_text(key).subrange(
            not_found_prefix().len() as int,
            (not_found_prefix().len() + key.len()) as int,
        ) =~= key,
{
}

} // verus!
