//! Laws of the decoding and pagination layers, stated over the same spec
//! functions the executable contracts use.

use vstd::prelude::*;

use crate::history::{spec_history_params, spec_page_cursor, PaginationCursor, PaymentHistoryData};
use crate::numbers::spec_u64_digits;
use crate::transport::{
    decode_matches, interpret_matches, json_of, spec_decode, spec_error_code, Error, FromJson,
    HttpReply, Rsp, SpecEnvelope,
};

verus! {

/// Law: decoding disambiguates the envelope structurally, trying the success
/// shape first. A text whose JSON matches the payload shape decodes as that
/// success; one matching only the error envelope decodes as that failure,
/// with exactly the server's code; any other text is undecodable.
pub proof fn lemma_envelope_disambiguation<T: FromJson>(s: Seq<char>)
    ensures
        (match json_of(s) {
            Some(j) => match T::from_json_spec(j) {
                Some(v) => spec_decode::<T>(s) == SpecEnvelope::Success(v),
                None => match spec_error_code(j) {
                    Some(code) => spec_decode::<T>(s) == SpecEnvelope::<T>::Failure(code),
                    None => spec_decode::<T>(s) == SpecEnvelope::<T>::Undecodable,
                },
            },
            None => spec_decode::<T>(s) == SpecEnvelope::<T>::Undecodable,
        }),
{
}

/// How two decode results can differ: not at all, but for the identity of
/// the character storage they carry.
pub open spec fn decode_results_alike<T: FromJson>(
    r1: Result<Rsp<T>, Error>,
    r2: Result<Rsp<T>, Error>,
) -> bool {
    match (r1, r2) {
        (Result::Ok(Rsp::OK(v1)), Result::Ok(Rsp::OK(v2))) => v1 == v2,
        (Result::Ok(Rsp::Error { error: e1 }), Result::Ok(Rsp::Error { error: e2 })) => e1@ == e2@,
        (
            Result::Err(Error::ParseError { description: d1, raw: w1 }),
            Result::Err(Error::ParseError { description: d2, raw: w2 }),
        ) => d1@ == d2@ && w1@ == w2@,
        _ => false,
    }
}

/// Law: decoding is idempotent — a pure function of the text. Two results of
/// decoding the same text land in the same case with the same content; there
/// is no hidden state to mutate.
pub proof fn lemma_decode_deterministic<T: FromJson>(
    s: Seq<char>,
    r1: Result<Rsp<T>, Error>,
    r2: Result<Rsp<T>, Error>,
)
    requires
        decode_matches::<T>(spec_decode::<T>(s), r1, s),
        decode_matches::<T>(spec_decode::<T>(s), r2, s),
    ensures
        decode_results_alike::<T>(r1, r2),
{
}

/// Law: a page missing either cursor component — even with the other one set
/// — carries no continuation, so the step on it moves the machine to `Done`
/// and no further fetch occurs.
pub proof fn lemma_missing_cursor_terminates(page: PaymentHistoryData)
    requires
        page.next_txn_date is None || page.next_txn_id is None,
    ensures
        spec_page_cursor(page) is None,
{
}

/// Law: the request for a page under a cursor carries the fixed page size
/// and threads the cursor pair unmodified, under its fixed parameter names.
pub proof fn lemma_cursor_threading(c: PaginationCursor)
    ensures
        spec_history_params(Some(c)).len() == 3,
        spec_history_params(Some(c))[0] == ("rows"@, "50"@),
        spec_history_params(Some(c))[1] == ("nextTxnDate"@, c.next_date@),
        spec_history_params(Some(c))[2] == ("nextTxnId"@, spec_u64_digits(c.next_id)),
{
}

/// Law: an HTTP failure status whose body decodes as the structured error
/// envelope still surfaces the server's code as the domain error; it is
/// never swallowed into a generic network failure.
pub proof fn lemma_http_failure_passthrough<T: FromJson>(
    reply: HttpReply,
    r: Result<T, crate::Error>,
)
    requires
        spec_decode::<T>(reply.body@) matches SpecEnvelope::Failure(_),
        interpret_matches::<T>(Ok(reply), r),
    ensures
        (match spec_decode::<T>(reply.body@) {
            SpecEnvelope::Failure(code) => r matches Err(crate::Error::QiwiError { description })
                && description@ == code,
            _ => false,
        }),
{
}

} // verus!
