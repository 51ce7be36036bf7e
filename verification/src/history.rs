//! The paginated transaction history: cursor threading and the explicit
//! fetch state machine, yielding each page's entries in order before the
//! next fetch is issued.

use vstd::prelude::*;
use vstd::string::StringExecFns;

use crate::json::{spec_obj_get, take3, Json};
use crate::numbers::{spec_u64_digits, u64_to_string};
use crate::transport::{
    interpret_matches, CallerWrapper, FromJson, HttpMethod, HttpReply, Request, Transport,
};

verus! {

/// The pagination cursor: the opaque continuation pair a listing response
/// carries while more entries are available. Threaded unmodified into the
/// next request and then discarded.
#[derive(Debug, Clone, PartialEq, Eq)]
pub struct PaginationCursor {
    pub next_date: String,
    pub next_id: u64,
}

/// One decoded page of the history: the entries in server order, plus the
/// cursor components when more pages are available.
#[derive(Debug, PartialEq, Eq)]
pub struct PaymentHistoryData {
    pub data: Vec<Json>,
    pub next_txn_date: Option<String>,
    pub next_txn_id: Option<u64>,
}

/// An optional string field: an absent field is fine, a present one must be
/// a string; any other shape refuses the whole document.
pub open spec fn spec_opt_str(v: Option<Json>) -> Option<Option<String>> {
    match v {
        Option::None => Some(Option::None),
        Option::Some(Json::Str(s)) => Some(Some(s)),
        Option::Some(_) => None,
    }
}

fn opt_str(v: Option<Json>) -> (r: Option<Option<String>>)
    ensures
        r == spec_opt_str(v),
{
    match v {
        Option::None => Some(Option::None),
        Option::Some(Json::Str(s)) => Some(Some(s)),
        Option::Some(_) => None,
    }
}

/// An optional unsigned integer field, in the same way.
pub open spec fn spec_opt_u64(v: Option<Json>) -> Option<Option<u64>> {
    match v {
        Option::None => Some(Option::None),
        Option::Some(Json::Num(n)) => Some(Some(n)),
        Option::Some(_) => None,
    }
}

fn opt_u64(v: Option<Json>) -> (r: Option<Option<u64>>)
    ensures
        r == spec_opt_u64(v),
{
    match v {
        Option::None => Some(Option::None),
        Option::Some(Json::Num(n)) => Some(Some(n)),
        Option::Some(_) => None,
    }
}

impl FromJson for PaymentHistoryData {
    open spec fn from_json_spec(j: Json) -> Option<PaymentHistoryData> {
        match j {
            Json::Obj(fields) => (match (
                spec_obj_get(fields@, "data"@),
                spec_opt_str(spec_obj_get(fields@, "nextTxnDate"@)),
                spec_opt_u64(spec_obj_get(fields@, "nextTxnId"@)),
            ) {
                (Some(Json::Arr(es)), Some(nd), Some(ni)) => Some(
                    PaymentHistoryData { data: es, next_txn_date: nd, next_txn_id: ni },
                ),
                _ => None,
            }),
            _ => None,
        }
    }

    fn from_json(j: Json) -> (r: Option<PaymentHistoryData>) {
        proof {
            reveal_strlit("data");
            reveal_strlit("nextTxnDate");
            reveal_strlit("nextTxnId");
            assert(("data"@).len() == 4);
            assert(("nextTxnDate"@).len() == 11);
            assert(("nextTxnId"@).len() == 9);
        }
        match j {
            Json::Obj(fields) => {
                let (d, nd, ni) = take3(
                    fields,
                    &"data".to_owned(),
                    &"nextTxnDate".to_owned(),
                    &"nextTxnId".to_owned(),
                );
                match (d, opt_str(nd), opt_u64(ni)) {
                    (Some(Json::Arr(es)), Some(nd2), Some(ni2)) => Some(
                        PaymentHistoryData { data: es, next_txn_date: nd2, next_txn_id: ni2 },
                    ),
                    _ => None,
                }
            },
            _ => None,
        }
    }
}

/// The continuation carried by a page: present only when the page holds both
/// cursor components. A page missing either one — even with the other set —
/// is terminal.
pub open spec fn spec_page_cursor(p: PaymentHistoryData) -> Option<PaginationCursor> {
    match (p.next_txn_date, p.next_txn_id) {
        (Some(d), Some(i)) => Some(PaginationCursor { next_date: d, next_id: i }),
        _ => None,
    }
}

/// Read the continuation off a page.
pub fn page_cursor(p: &PaymentHistoryData) -> (r: Option<PaginationCursor>)
    ensures
        r == spec_page_cursor(*p),
{
    match (&p.next_txn_date, &p.next_txn_id) {
        (Some(d), Some(i)) => Some(PaginationCursor { next_date: d.clone(), next_id: *i }),
        _ => None,
    }
}

/// How many consecutive pages without entries one [`PaymentHistoryStream::next`]
/// call tolerates before it gives up; generous enough never to be hit against
/// a server that honours the page size.
pub const MAX_EMPTY_PAGES: usize = 4096;

/// The description of the error that ends the sequence after such a run.
pub open spec fn spec_empty_run_text() -> Seq<char> {
    "too many consecutive pages without entries"@
}

/// States of the paginated fetch.
#[derive(Debug, PartialEq, Eq)]
pub enum FetchState {
    /// No fetch has happened yet; the first one carries no cursor.
    Start,
    /// More pages are owed; the next fetch carries this cursor, if any.
    Fetching(Option<PaginationCursor>),
    /// The sequence has ended; no further call is issued.
    Done,
}

/// The view of query parameters: name and value as character sequences.
pub open spec fn params_view(params: Seq<(String, String)>) -> Seq<(Seq<char>, Seq<char>)> {
    params.map_values(|p: (String, String)| (p.0@, p.1@))
}

/// The parameters of one history fetch: the fixed page size, plus the cursor
/// pair under its fixed names iff a cursor is present.
pub open spec fn spec_history_params(cursor: Option<PaginationCursor>) -> Seq<
    (Seq<char>, Seq<char>),
> {
    match cursor {
        Option::None => seq![("rows"@, "50"@)],
        Option::Some(c) => seq![
            ("rows"@, "50"@),
            ("nextTxnDate"@, c.next_date@),
            ("nextTxnId"@, spec_u64_digits(c.next_id)),
        ],
    }
}

/// The listing endpoint for one user.
pub open spec fn spec_history_endpoint(user: Seq<char>) -> Seq<char> {
    "payment-history/v2/persons/"@ + user + "/payments"@
}

/// Build the listing request for one page: a GET without body, `rows=50`
/// whatever remains, and the cursor threaded unmodified iff one is present.
pub fn history_request(user: &String, cursor: &Option<PaginationCursor>) -> (r: Request)
    ensures
        r.endpoint@ == spec_history_endpoint(user@),
        r.method == HttpMethod::Get,
        r.body is None,
        params_view(r.params@) == spec_history_params(*cursor),
{
    let mut endpoint = "payment-history/v2/persons/".to_owned();
    endpoint.append(user.as_str());
    endpoint.append("/payments");
    let mut params: Vec<(String, String)> = Vec::new();
    params.push(("rows".to_owned(), "50".to_owned()));
    match cursor {
        Some(c) => {
            params.push(("nextTxnDate".to_owned(), c.next_date.clone()));
            params.push(("nextTxnId".to_owned(), u64_to_string(c.next_id)));
            proof {
                assert(params_view(params@) =~= spec_history_params(*cursor));
            }
        },
        None => {
            proof {
                assert(params_view(params@) =~= spec_history_params(*cursor));
            }
        },
    }
    Request { endpoint, method: HttpMethod::Get, params, body: None }
}

/// What one fetch outcome does to the state machine.
#[derive(Debug)]
pub struct StepResult {
    /// The entries to emit, in server order, before anything else happens.
    pub emit: Vec<Json>,
    /// The terminal error element, if the fetch failed.
    pub error: Option<crate::Error>,
    /// The state the machine moves to.
    pub next: FetchState,
}

/// The state machine step on one fetch outcome. A decoded page emits all its
/// entries in order and continues iff it carries both cursor components; a
/// failed fetch emits nothing, yields the error as the terminal element, and
/// ends the sequence — entries already emitted stay valid.
pub fn fetch_step(outcome: Result<PaymentHistoryData, crate::Error>) -> (r: StepResult)
    ensures
        match outcome {
            Result::Ok(page) => r.error is None && r.emit == page.data && r.next == (
            match spec_page_cursor(page) {
                Some(c) => FetchState::Fetching(Some(c)),
                None => FetchState::Done,
            }),
            Result::Err(e) => r.emit@ == Seq::<Json>::empty() && r.error == Some(e) && r.next
                == FetchState::Done,
        },
{
    match outcome {
        Ok(page) => {
            let next = match page_cursor(&page) {
                Some(c) => FetchState::Fetching(Some(c)),
                None => FetchState::Done,
            };
            StepResult { emit: page.data, error: None, next }
        },
        Err(e) => {
            let emit: Vec<Json> = Vec::new();
            proof {
                assert(emit@ =~= Seq::<Json>::empty());
            }
            StepResult { emit, error: Some(e), next: FetchState::Done }
        },
    }
}

/// The paginated history fetch: an explicit state machine over
/// [`FetchState`], lazy per element but batched per page — every entry of a
/// fetched page is delivered before the next fetch is issued.
#[derive(Debug)]
pub struct PaymentHistoryStream {
    /// The user whose history is listed.
    pub user: String,
    /// Where the machine stands.
    pub state: FetchState,
    /// Entries of the current page not yet yielded.
    pub buffer: Vec<Json>,
}

impl PaymentHistoryStream {
    /// Entries already fetched but not yet yielded, in order.
    pub open spec fn pending(self) -> Seq<Json> {
        self.buffer@
    }

    /// A fresh stream for one user, before any fetch.
    pub fn new(user: String) -> (r: Self)
        ensures
            r.state == FetchState::Start,
            r.pending() == Seq::<Json>::empty(),
            r.user == user,
    {
        let buffer: Vec<Json> = Vec::new();
        proof {
            assert(buffer@ =~= Seq::<Json>::empty());
        }
        PaymentHistoryStream { user, state: FetchState::Start, buffer }
    }

    /// Yield the next element of the sequence: `None` when the history is
    /// exhausted, otherwise one entry or the terminal error. Entries already
    /// buffered are yielded first, with no fetch and no state change; a
    /// fetch happens only on an empty buffer, and a failed fetch ends the
    /// sequence.
    ///
    /// A page without entries but with a cursor yields nothing and the next
    /// page is fetched at once; a run of more than [`MAX_EMPTY_PAGES`] such
    /// pages within one call ends the sequence with a network-layer error,
    /// so that one call provably terminates. A server honouring the page
    /// size never produces such a run.
    pub fn next<C: Transport>(&mut self, caller: &mut CallerWrapper<C>) -> (r: Option<
        Result<Json, crate::Error>,
    >)
        ensures
            final(self).user == old(self).user,
            old(self).pending().len() > 0 ==> r == Some(Result::<Json, crate::Error>::Ok(
                old(self).pending().first(),
            )) && final(self).pending() == old(self).pending().drop_first() && final(self).state
                == old(self).state,
            (old(self).state == FetchState::Done && old(self).pending().len() == 0) ==> r is None
                && *final(self) == *old(self),
            r is None ==> final(self).state == FetchState::Done && final(self).pending().len()
                == 0,
            (r matches Some(Result::<Json, crate::Error>::Err(_))) ==> final(self).state
                == FetchState::Done && final(self).pending().len() == 0,
            // The history only ends from a live state because some fetched
            // page said so: an interpreted outcome with no entries and no
            // cursor.
            (old(self).pending().len() == 0 && old(self).state != FetchState::Done && r is None)
                ==> exists|o: Result<HttpReply, String>, page: PaymentHistoryData|
                interpret_matches::<PaymentHistoryData>(
                    o,
                    Ok::<PaymentHistoryData, crate::Error>(page),
                ) && page.data@.len() == 0 && spec_page_cursor(page) is None,
            // An entry yielded without buffered input is the first entry of a
            // page some outcome decoded to; the rest of that page is buffered
            // and the state follows that page's cursor.
            old(self).pending().len() == 0 ==> (r matches Some(
                Result::<Json, crate::Error>::Ok(e),
            ) ==> exists|o: Result<HttpReply, String>, page: PaymentHistoryData|
                interpret_matches::<PaymentHistoryData>(
                    o,
                    Ok::<PaymentHistoryData, crate::Error>(page),
                ) && page.data@.len() > 0 && page.data@[0] == e && final(self).pending()
                    == page.data@.drop_first() && final(self).state == (
                match spec_page_cursor(page) {
                    Some(c) => FetchState::Fetching(Some(c)),
                    None => FetchState::Done,
                })),
            // An error element is the interpretation of some outcome, or the
            // one give-up error after a run of empty pages.
            r matches Some(Result::<Json, crate::Error>::Err(e)) ==> ((exists|
                o: Result<HttpReply, String>,
            |
                interpret_matches::<PaymentHistoryData>(
                    o,
                    Err::<PaymentHistoryData, crate::Error>(e),
                )) || (e matches crate::Error::TransportError {
                source: crate::transport::Error::NetworkError { description },
            } && description@ == spec_empty_run_text())),
    {
        if self.buffer.len() > 0 {
            let e = self.buffer.remove(0);
            proof {
                assert(self.buffer@ =~= old(self).pending().drop_first());
            }
            return Some(Ok(e));
        }
        let mut fuel: usize = MAX_EMPTY_PAGES;
        loop
            invariant
                self.user == old(self).user,
                self.buffer@.len() == 0,
                old(self).pending().len() == 0,
                old(self).state == FetchState::Done ==> *self == *old(self),
                (old(self).state != FetchState::Done && self.state == FetchState::Done) ==> exists|
                    o: Result<HttpReply, String>,
                    page: PaymentHistoryData,
                |
                    interpret_matches::<PaymentHistoryData>(
                        o,
                        Ok::<PaymentHistoryData, crate::Error>(page),
                    ) && page.data@.len() == 0 && spec_page_cursor(page) is None,
            decreases fuel,
        {
            let cursor: Option<PaginationCursor> = match &self.state {
                FetchState::Done => {
                    return None;
                },
                FetchState::Start => None,
                FetchState::Fetching(None) => None,
                FetchState::Fetching(Some(c)) => Some(
                    PaginationCursor { next_date: c.next_date.clone(), next_id: c.next_id },
                ),
            };
            if fuel == 0 {
                self.state = FetchState::Done;
                return Some(Err(crate::Error::TransportError {
                    source: crate::transport::Error::NetworkError {
                        description: "too many consecutive pages without entries".to_owned(),
                    },
                }));
            }
            fuel = fuel - 1;
            let req = history_request(&self.user, &cursor);
            let outcome = caller.call::<PaymentHistoryData>(&req);
            let ghost gout = outcome;
            let ghost owit = choose|o: Result<HttpReply, String>|
                interpret_matches::<PaymentHistoryData>(o, gout);
            let step = fetch_step(outcome);
            self.state = step.next;
            self.buffer = step.emit;
            match step.error {
                Some(e) => {
                    proof {
                        assert(gout == Err::<PaymentHistoryData, crate::Error>(e));
                        assert(interpret_matches::<PaymentHistoryData>(
                            owit,
                            Err::<PaymentHistoryData, crate::Error>(e),
                        ));
                    }
                    return Some(Err(e));
                },
                None => {},
            }
            let ghost page = gout->Ok_0;
            proof {
                assert(gout == Ok::<PaymentHistoryData, crate::Error>(page));
            }
            if self.buffer.len() > 0 {
                let e = self.buffer.remove(0);
                proof {
                    assert(interpret_matches::<PaymentHistoryData>(
                        owit,
                        Ok::<PaymentHistoryData, crate::Error>(page),
                    ));
                    assert(page.data@.len() > 0 && page.data@[0] == e);
                    assert(self.buffer@ =~= page.data@.drop_first());
                }
                return Some(Ok(e));
            }
            proof {
                if self.state == FetchState::Done {
                    assert(interpret_matches::<PaymentHistoryData>(
                        owit,
                        Ok::<PaymentHistoryData, crate::Error>(page),
                    ) && page.data@.len() == 0 && spec_page_cursor(page) is None);
                }
            }
        }
    }
}

} // verus!
