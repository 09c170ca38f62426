//! The gateway's request logic: validation of inserts before any RPC is
//! issued, the one table that turns RPC statuses into gateway errors, and the
//! HTTP replies rendered from each outcome.
use vstd::prelude::*;

use crate::protocol::{RpcCode, RpcStatus};
use crate::store::lookup;

verus! {

/// The text `s` with leading and trailing whitespace removed, as `str::trim`
/// computes it.
pub uninterp spec fn trim_of(s: Seq<char>) -> Seq<char>;

/// The characters with the Unicode `White_Space` property, which
/// `char::is_whitespace` tests.
pub open spec fn is_white_space(c: char) -> bool {
    let n = c as u32;
    ||| 0x9 <= n <= 0xD
    ||| n == 0x20
    ||| n == 0x85
    ||| n == 0xA0
    ||| n == 0x1680
    ||| 0x2000 <= n <= 0x200A
    ||| n == 0x2028
    ||| n == 0x2029
    ||| n == 0x202F
    ||| n == 0x205F
    ||| n == 0x3000
}

/// Every character of `s` is white space (vacuously so for `s` empty).
pub open spec fn all_white_space(s: Seq<char>) -> bool {
    forall|i: int| 0 <= i < s.len() ==> is_white_space(#[trigger] s[i])
}

/// `r` is `s` with its leading and trailing white space cut off: a
/// contiguous part of `s`, only white space outside it, and neither end of
/// it white space.
pub open spec fn trims_to(s: Seq<char>, r: Seq<char>) -> bool {
    &&& exists|i: int, j: int|
        0 <= i <= j <= s.len() && r == s.subrange(i, j) && (forall|k: int|
            0 <= k < i ==> is_white_space(#[trigger] s[k])) && (forall|k: int|
            j <= k < s.len() ==> is_white_space(#[trigger] s[k]))
    &&& r.len() == 0 || (!is_white_space(r[0]) && !is_white_space(r[r.len() - 1]))
}

/// Relies on `str::trim`: it returns the slice of `s` left once leading and
/// trailing characters with the `White_Space` property are removed, and
/// depends on the characters of `s` alone.
#[verifier::external_body]
fn trimmed(s: &str) -> (r: &str)
    ensures
        r@ == trim_of(s@),
        trims_to(s@, r@),
{
    s.trim()
}

/// Trimming leaves nothing exactly when every character is white space.
pub proof fn lemma_trim_empty_iff_all_white_space(s: Seq<char>, r: Seq<char>)
    requires
        trims_to(s, r),
    ensures
        r.len() == 0 <==> all_white_space(s),
{
    let (i, j) = choose|i: int, j: int|
        0 <= i <= j <= s.len() && r == s.subrange(i, j) && (forall|k: int|
            0 <= k < i ==> is_white_space(#[trigger] s[k])) && (forall|k: int|
            j <= k < s.len() ==> is_white_space(#[trigger] s[k]));
    if r.len() == 0 {
        assert forall|k: int| 0 <= k < s.len() implies is_white_space(#[trigger] s[k]) by {
            if k >= j {
            } else {
                assert(k < i);
            }
        }
    } else {
        assert(r[0] == s[i]);
    }
}

/// Nothing is left of `s` once surrounding whitespace is removed.
pub open spec fn is_blank(s: Seq<char>) -> bool {
    trim_of(s).len() == 0
}

pub const HTTP_OK: u16 = 200;

pub const HTTP_BAD_REQUEST: u16 = 400;

pub const HTTP_NOT_FOUND: u16 = 404;

pub const HTTP_INTERNAL_SERVER_ERROR: u16 = 500;

/// Why an insert was refused before reaching the store.
#[derive(Clone, Copy, Debug, PartialEq, Eq, Structural)]
pub enum ValidationError {
    EmptyKey,
    EmptyValue,
}

/// How a gateway call failed.
#[derive(Clone, Copy, Debug, PartialEq, Eq, Structural)]
pub enum CallError {
    /// The request was refused locally; no RPC was issued.
    Invalid(ValidationError),
    /// The store has no value under the key.
    NotFound,
    /// Any other RPC failure.
    Remote,
}

/// An HTTP status and body.
#[derive(Debug, PartialEq, Eq)]
pub struct HttpReply {
    pub status: u16,
    pub body: String,
}

/// The verdict on an insert of `key` and `value`: the key is checked first.
pub open spec fn validation(key: Seq<char>, value: Seq<char>) -> Result<(), ValidationError> {
    if is_blank(key) {
        Err(ValidationError::EmptyKey)
    } else if is_blank(value) {
        Err(ValidationError::EmptyValue)
    } else {
        Ok(())
    }
}

/// The mapping from an RPC status class to a gateway error.
pub open spec fn error_of_code(code: RpcCode) -> CallError {
    if code == RpcCode::NotFound {
        CallError::NotFound
    } else {
        CallError::Remote
    }
}

pub open spec fn key_message() -> Seq<char> {
    "'key' field can't be empty."@
}

pub open spec fn value_message() -> Seq<char> {
    "'value' field can't be empty."@
}

/// The HTTP status that renders a gateway error.
pub open spec fn status_of_error(e: CallError) -> u16 {
    match e {
        CallError::Invalid(_) => HTTP_BAD_REQUEST,
        CallError::NotFound => HTTP_NOT_FOUND,
        CallError::Remote => HTTP_INTERNAL_SERVER_ERROR,
    }
}

/// The body that goes with a gateway error.
pub open spec fn body_of_error(e: CallError) -> Seq<char> {
    match e {
        CallError::Invalid(ValidationError::EmptyKey) => key_message(),
        CallError::Invalid(ValidationError::EmptyValue) => value_message(),
        _ => Seq::empty(),
    }
}

/// The verdict on an insert whose key and value, once trimmed, are
/// `key_t` and `value_t`.
pub open spec fn trimmed_validation(key_t: Seq<char>, value_t: Seq<char>) -> Result<
    (),
    ValidationError,
> {
    if key_t.len() == 0 {
        Err(ValidationError::EmptyKey)
    } else if value_t.len() == 0 {
        Err(ValidationError::EmptyValue)
    } else {
        Ok(())
    }
}

/// The verdict on an insert by its characters: a key or value made of
/// white space alone (or empty) is refused, the key first.
pub open spec fn white_space_validation(key: Seq<char>, value: Seq<char>) -> Result<
    (),
    ValidationError,
> {
    if all_white_space(key) {
        Err(ValidationError::EmptyKey)
    } else if all_white_space(value) {
        Err(ValidationError::EmptyValue)
    } else {
        Ok(())
    }
}

/// Judges an insert from its already trimmed key and value: an empty key is
/// refused first, then an empty value.
pub fn validate_trimmed(key_t: &str, value_t: &str) -> (r: Result<(), ValidationError>)
    ensures
        r == trimmed_validation(key_t@, value_t@),
{
    if key_t.is_empty() {
        Err(ValidationError::EmptyKey)
    } else if value_t.is_empty() {
        Err(ValidationError::EmptyValue)
    } else {
        Ok(())
    }
}

/// Checks that neither `key` nor `value` is empty after trimming, that is,
/// that each holds a character other than white space.
pub fn validate_insert(key: &str, value: &str) -> (r: Result<(), ValidationError>)
    ensures
        r == validation(key@, value@),
        r == white_space_validation(key@, value@),
        is_blank(key@) <==> all_white_space(key@),
        is_blank(value@) <==> all_white_space(value@),
{
    let key_t = trimmed(key);
    let value_t = trimmed(value);
    proof {
        lemma_trim_empty_iff_all_white_space(key@, key_t@);
        lemma_trim_empty_iff_all_white_space(value@, value_t@);
    }
    validate_trimmed(key_t, value_t)
}

impl ValidationError {
    /// The message sent back with the refusal.
    pub fn message(&self) -> (r: String)
        ensures
            r@ == body_of_error(CallError::Invalid(*self)),
    {
        match self {
            ValidationError::EmptyKey => String::from_str("'key' field can't be empty."),
            ValidationError::EmptyValue => String::from_str("'value' field can't be empty."),
        }
    }
}

/// Translates a failed RPC: not-found stays distinct, anything else is a
/// remote error.
pub fn translate_status(status: &RpcStatus) -> (r: CallError)
    ensures
        r == error_of_code(status.code),
{
    match status.code {
        RpcCode::NotFound => CallError::NotFound,
        _ => CallError::Remote,
    }
}

/// The outcome of a lookup forwarded to the store.
pub fn get_outcome(result: Result<String, RpcStatus>) -> (r: Result<String, CallError>)
    ensures
        match result {
            Ok(v) => r == Ok::<String, CallError>(v),
            Err(s) => r == Err::<String, CallError>(error_of_code(s.code)),
        },
{
    match result {
        Ok(v) => Ok(v),
        Err(s) => Err(translate_status(&s)),
    }
}

/// The outcome of an insert forwarded to the store: every RPC failure is a
/// remote error.
pub fn insert_outcome(result: Result<bool, RpcStatus>) -> (r: Result<(), CallError>)
    ensures
        r == (match result {
            Ok(_) => Ok(()),
            Err(_) => Err(CallError::Remote),
        }),
{
    match result {
        Ok(_) => Ok(()),
        Err(_) => Err(CallError::Remote),
    }
}

/// The reply that renders a gateway error.
pub fn error_reply(e: CallError) -> (r: HttpReply)
    ensures
        r.status == status_of_error(e),
        r.body@ == body_of_error(e),
{
    match e {
        CallError::Invalid(v) => HttpReply { status: HTTP_BAD_REQUEST, body: v.message() },
        CallError::NotFound => HttpReply { status: HTTP_NOT_FOUND, body: String::new() },
        CallError::Remote => HttpReply { status: HTTP_INTERNAL_SERVER_ERROR, body: String::new() },
    }
}

/// The reply to `GET /{key}` once the store has answered: the value on a
/// hit, 404 when the key is absent, 500 on any other failure.
pub fn get_reply(result: Result<String, RpcStatus>) -> (r: HttpReply)
    ensures
        match result {
            Ok(v) => r.status == HTTP_OK && r.body@ == v@,
            Err(s) => r.status == status_of_error(error_of_code(s.code)) && r.body@
                == Seq::<char>::empty(),
        },
{
    match get_outcome(result) {
        Ok(v) => HttpReply { status: HTTP_OK, body: v },
        Err(e) => error_reply(e),
    }
}

/// The reply to `POST /` once the store has answered: 200 on success, 500
/// on any failure.
pub fn insert_reply(result: Result<bool, RpcStatus>) -> (r: HttpReply)
    ensures
        r.status == (if result is Ok {
            HTTP_OK
        } else {
            HTTP_INTERNAL_SERVER_ERROR
        }),
        r.body@ == Seq::<char>::empty(),
{
    match insert_outcome(result) {
        Ok(()) => HttpReply { status: HTTP_OK, body: String::new() },
        Err(e) => error_reply(e),
    }
}

/// The reply to `POST /` when validation refuses the insert; `None` when
/// the insert may be forwarded to the store.
pub fn rejection(key: &str, value: &str) -> (r: Option<HttpReply>)
    ensures
        match white_space_validation(key@, value@) {
            Ok(()) => r is None,
            Err(v) => r is Some && r->Some_0.status == HTTP_BAD_REQUEST && r->Some_0.body@
                == body_of_error(CallError::Invalid(v)),
        },
{
    match validate_insert(key, value) {
        Ok(()) => None,
        Err(v) => Some(error_reply(CallError::Invalid(v))),
    }
}

/// An insert whose key and value each hold a character other than white
/// space passes validation, and a lookup of its key afterwards finds its
/// value, whatever the store held before.
pub proof fn lemma_accepted_insert_round_trip(
    m: Map<Seq<char>, Seq<char>>,
    k: Seq<char>,
    v: Seq<char>,
)
    requires
        !all_white_space(k),
        !all_white_space(v),
    ensures
        white_space_validation(k, v) == Ok::<(), ValidationError>(()),
        lookup(m.insert(k, v), k) == Some(v),
{
    crate::store::lemma_round_trip(m, k, v);
}

/// An insert whose key or value is empty or white space alone is refused
/// before any RPC, with a 400 reply; the key is judged first.
pub proof fn lemma_blank_insert_refused(k: Seq<char>, v: Seq<char>)
    requires
        all_white_space(k) || all_white_space(v),
    ensures
        white_space_validation(k, v) is Err,
        all_white_space(k) ==> white_space_validation(k, v) == Err::<(), ValidationError>(
            ValidationError::EmptyKey,
        ),
        status_of_error(CallError::Invalid(white_space_validation(k, v)->Err_0))
            == HTTP_BAD_REQUEST,
{
}

} // verus!
