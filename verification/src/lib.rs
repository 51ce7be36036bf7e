//! Client library for a remote payment-wallet REST API.
//!
//! The verified core is the transport/decoding layer: a capability trait for
//! one HTTP round trip, an envelope decoder that distinguishes success
//! payloads from server-reported errors, a typed caller composing the two,
//! and a cursor-based paginated fetch over the transaction history.

pub mod history;
pub mod json;
pub mod laws;
pub mod models;
pub mod numbers;
pub mod requests;
pub mod transport;

use vstd::prelude::*;

verus! {

/// Does an HTTP status code indicate failure at the HTTP level (4xx or 5xx)?
pub open spec fn spec_status_is_failure(status: u16) -> bool {
    400 <= status && status <= 599
}

/// Classify an HTTP status code: 4xx and 5xx statuses are failures; the
/// response body is still kept around, since it may carry a structured error.
pub fn status_is_failure(status: u16) -> (r: bool)
    ensures
        r == spec_status_is_failure(status),
{
    400 <= status && status <= 599
}

/// Errors surfaced by a typed call, tagged with the layer of origin: the
/// network/decoding layer failed, or the server reported that the operation
/// itself is invalid.
#[derive(Debug, Clone, PartialEq, Eq)]
pub enum Error {
    /// The transport or the decoding of its reply failed.
    TransportError { source: transport::Error },
    /// The server answered with a structured error code; always recoverable
    /// by the caller, never a bug.
    QiwiError { description: String },
}

/// The result of a typed call against the remote API.
pub type QiwiResult<T> = Result<T, Error>;

impl<T> transport::Rsp<T> {
    /// `OK` becomes the value; a server-reported error code becomes the
    /// domain error. This is the single point where a successful HTTP call
    /// turns into a failed domain operation.
    pub fn into_result(self) -> (r: Result<T, Error>)
        ensures
            match self {
                transport::Rsp::OK(v) => r == Ok::<T, Error>(v),
                transport::Rsp::Error { error } => r == Err::<T, Error>(
                    Error::QiwiError { description: error },
                ),
            },
    {
        match self {
            transport::Rsp::Error { error } => Err(Error::QiwiError { description: error }),
            transport::Rsp::OK(v) => Ok(v),
        }
    }
}

/// A client of the remote API: one transport, one user identifier. The
/// bearer credential lives inside the transport, which attaches it to every
/// request it sends.
#[derive(Debug)]
pub struct Client<C: transport::Transport> {
    pub caller: transport::CallerWrapper<C>,
    pub user: String,
}

/// The result of extracting the commission terms from the decoded wrapper,
/// for each value a call could have produced.
pub open spec fn spec_unwrap_commission(w: Result<models::CommissionInfoWrapper, Error>) -> Result<
    models::CommissionInfo,
    Error,
> {
    match w {
        Result::Ok(x) => Ok(x.commission),
        Result::Err(e) => Err(e),
    }
}

/// The result of extracting the quoted amount, for each value a call could
/// have produced.
pub open spec fn spec_unwrap_quote(w: Result<models::CommissionQuote, Error>) -> Result<
    json::Json,
    Error,
> {
    match w {
        Result::Ok(x) => Ok(x.qw_commission_amount),
        Result::Err(e) => Err(e),
    }
}

impl<C: transport::Transport> Client<C> {
    /// A client over the given transport for the given user identifier.
    pub fn new(transport: C, user: String) -> (r: Self)
        ensures
            r.user == user,
            r.caller == (transport::CallerWrapper { transport }),
    {
        Client { caller: transport::CallerWrapper { transport }, user }
    }

    /// Fetch the profile of the current user, with all three sections.
    pub fn profile_info(&mut self) -> (r: Result<models::ProfileInfo, Error>)
        ensures
            exists|outcome: Result<transport::HttpReply, String>|
                transport::interpret_matches::<models::ProfileInfo>(outcome, r),
    {
        let req = requests::profile_request();
        self.caller.call::<models::ProfileInfo>(&req)
    }

    /// The paginated transaction history of this client's user, not yet
    /// fetched; drive it with [`history::PaymentHistoryStream::next`].
    pub fn payment_history(&self) -> (r: history::PaymentHistoryStream)
        ensures
            r.user == self.user,
            r.state == history::FetchState::Start,
            r.pending() == Seq::<json::Json>::empty(),
    {
        history::PaymentHistoryStream::new(self.user.clone())
    }

    /// Fetch one provider's commission terms out of their wire wrapper.
    pub fn commission_info(&mut self, provider: models::ProviderId) -> (r: Result<
        models::CommissionInfo,
        Error,
    >)
        ensures
            exists|
                outcome: Result<transport::HttpReply, String>,
                w: Result<models::CommissionInfoWrapper, Error>,
            |
                transport::interpret_matches::<models::CommissionInfoWrapper>(outcome, w) && r
                    == spec_unwrap_commission(w),
    {
        let req = requests::commission_info_request(provider);
        let w = self.caller.call::<models::CommissionInfoWrapper>(&req);
        let ghost gw = w;
        let r = match w {
            Ok(x) => Ok(x.commission),
            Err(e) => Err(e),
        };
        proof {
            assert(r == spec_unwrap_commission(gw));
        }
        r
    }

    /// Quote the commission for paying `amount` (a decimal number literal,
    /// passed through unchanged) to `account` through `provider`; the quoted
    /// amount comes back as the JSON number node, precision kept.
    pub fn commission_quote(
        &mut self,
        provider: models::ProviderId,
        account: String,
        amount: String,
    ) -> (r: Result<json::Json, Error>)
        ensures
            exists|
                outcome: Result<transport::HttpReply, String>,
                w: Result<models::CommissionQuote, Error>,
            |
                transport::interpret_matches::<models::CommissionQuote>(outcome, w) && r
                    == spec_unwrap_quote(w),
    {
        let req = requests::commission_quote_request(provider, account, amount);
        let w = self.caller.call::<models::CommissionQuote>(&req);
        let ghost gw = w;
        let r = match w {
            Ok(x) => Ok(x.qw_commission_amount),
            Err(e) => Err(e),
        };
        proof {
            assert(r == spec_unwrap_quote(gw));
        }
        r
    }

    /// Transfer `amount` in the direction's currency, under the given
    /// identifier or the caller's fallback (conventionally the current time
    /// in milliseconds).
    pub fn transfer(
        &mut self,
        id: Option<u64>,
        fallback_id: u64,
        amount: String,
        direction: models::TransferDirection,
        comment: String,
    ) -> (r: Result<models::TransferData, Error>)
        ensures
            exists|outcome: Result<transport::HttpReply, String>|
                transport::interpret_matches::<models::TransferData>(outcome, r),
    {
        let req = requests::transfer_request(id, fallback_id, amount, direction, comment);
        self.caller.call::<models::TransferData>(&req)
    }
}

} // verus!
