//! Request descriptors for the individual endpoints: payload construction
//! over plain values, each pinned down field by field.

use vstd::prelude::*;
use vstd::string::StringExecFns;

use crate::history::params_view;
use crate::json::Json;
use crate::models::{ProviderId, TransferDirection};
use crate::numbers::{spec_u64_digits, u64_to_string};
use crate::transport::{HttpMethod, Request};

verus! {

/// Is `j` exactly the string `s`?
pub open spec fn json_is_str(j: Json, s: Seq<char>) -> bool {
    j matches Json::Str(v) && v@ == s
}

/// Is `j` exactly the number with literal text `s`?
pub open spec fn json_is_numtext(j: Json, s: Seq<char>) -> bool {
    j matches Json::NumText(v) && v@ == s
}

/// The ISO numeric code of the rouble, the wallet's account currency.
pub open spec fn spec_rub_code() -> Seq<char> {
    "643"@
}

/// Is `j` the fixed payment-method object: type `Account` on the rouble
/// account?
pub open spec fn spec_account_method(j: Json) -> bool {
    match j {
        Json::Obj(fs) => fs@.len() == 2 && fs@[0].0@ == "type"@ && json_is_str(
            fs@[0].1,
            "Account"@,
        ) && fs@[1].0@ == "accountId"@ && json_is_str(fs@[1].1, spec_rub_code()),
        _ => false,
    }
}

/// Is `j` a money object: this amount (kept as a number literal) in this
/// currency?
pub open spec fn spec_money_obj(j: Json, amount: Seq<char>, currency: Seq<char>) -> bool {
    match j {
        Json::Obj(fs) => fs@.len() == 2 && fs@[0].0@ == "amount"@ && json_is_numtext(
            fs@[0].1,
            amount,
        ) && fs@[1].0@ == "currency"@ && json_is_str(fs@[1].1, currency),
        _ => false,
    }
}

fn account_method() -> (r: Json)
    ensures
        spec_account_method(r),
{
    Json::Obj(
        vec![
            ("type".to_owned(), Json::Str("Account".to_owned())),
            ("accountId".to_owned(), Json::Str("643".to_owned())),
        ],
    )
}

fn money_obj(amount: String, currency: String) -> (r: Json)
    ensures
        spec_money_obj(r, amount@, currency@),
{
    Json::Obj(
        vec![
            ("amount".to_owned(), Json::NumText(amount)),
            ("currency".to_owned(), Json::Str(currency)),
        ],
    )
}

/// The profile request: ask for all three sections.
pub open spec fn spec_profile_params() -> Seq<(Seq<char>, Seq<char>)> {
    seq![
        ("authInfoEnabled"@, "true"@),
        ("contractInfoEnabled"@, "true"@),
        ("userInfoEnabled"@, "true"@),
    ]
}

/// Build the profile request: a GET of the fixed profile endpoint with the
/// three sections switched on, no body.
pub fn profile_request() -> (r: Request)
    ensures
        r.endpoint@ == "person-profile/v1/profile/current"@,
        r.method == HttpMethod::Get,
        r.body is None,
        params_view(r.params@) == spec_profile_params(),
{
    let params: Vec<(String, String)> = vec![
        ("authInfoEnabled".to_owned(), "true".to_owned()),
        ("contractInfoEnabled".to_owned(), "true".to_owned()),
        ("userInfoEnabled".to_owned(), "true".to_owned()),
    ];
    proof {
        assert(params_view(params@) =~= spec_profile_params());
    }
    Request {
        endpoint: "person-profile/v1/profile/current".to_owned(),
        method: HttpMethod::Get,
        params,
        body: None,
    }
}

/// The catalogue endpoint of one provider's commission terms.
pub open spec fn spec_commission_info_endpoint(provider: ProviderId) -> Seq<char> {
    "sinap/providers/"@ + spec_u64_digits(provider) + "/form"@
}

/// Build the commission-terms request: a GET, no parameters, no body.
pub fn commission_info_request(provider: ProviderId) -> (r: Request)
    ensures
        r.endpoint@ == spec_commission_info_endpoint(provider),
        r.method == HttpMethod::Get,
        r.body is None,
        params_view(r.params@) == Seq::<(Seq<char>, Seq<char>)>::empty(),
{
    let mut endpoint = "sinap/providers/".to_owned();
    let digits = u64_to_string(provider);
    endpoint.append(digits.as_str());
    endpoint.append("/form");
    let params: Vec<(String, String)> = Vec::new();
    proof {
        assert(params_view(params@) =~= Seq::<(Seq<char>, Seq<char>)>::empty());
    }
    Request { endpoint, method: HttpMethod::Get, params, body: None }
}

/// The quote endpoint of one provider.
pub open spec fn spec_commission_quote_endpoint(provider: ProviderId) -> Seq<char> {
    "sinap/providers/"@ + spec_u64_digits(provider) + "/onlineCommission"@
}

/// The quote request's body: the target account, the fixed payment method,
/// and the purchase total in roubles.
pub open spec fn spec_quote_body(b: Json, account: Seq<char>, amount: Seq<char>) -> bool {
    match b {
        Json::Obj(fs) => fs@.len() == 3 && fs@[0].0@ == "account"@ && json_is_str(
            fs@[0].1,
            account,
        ) && fs@[1].0@ == "payment_method"@ && spec_account_method(fs@[1].1) && fs@[2].0@
            == "purchaseTotals"@ && (match fs@[2].1 {
            Json::Obj(t) => t@.len() == 1 && t@[0].0@ == "total"@ && spec_money_obj(
                t@[0].1,
                amount,
                spec_rub_code(),
            ),
            _ => false,
        }),
        _ => false,
    }
}

/// Build the quote request: a POST whose body names the account and the
/// amount; the amount travels as a number literal, unchanged.
pub fn commission_quote_request(provider: ProviderId, account: String, amount: String) -> (r:
    Request)
    ensures
        r.endpoint@ == spec_commission_quote_endpoint(provider),
        r.method == HttpMethod::Post,
        params_view(r.params@) == Seq::<(Seq<char>, Seq<char>)>::empty(),
        r.body matches Some(b) && spec_quote_body(b, account@, amount@),
{
    let mut endpoint = "sinap/providers/".to_owned();
    let digits = u64_to_string(provider);
    endpoint.append(digits.as_str());
    endpoint.append("/onlineCommission");
    let params: Vec<(String, String)> = Vec::new();
    proof {
        assert(params_view(params@) =~= Seq::<(Seq<char>, Seq<char>)>::empty());
    }
    let totals = Json::Obj(vec![("total".to_owned(), money_obj(amount, "643".to_owned()))]);
    let body = Json::Obj(
        vec![
            ("account".to_owned(), Json::Str(account)),
            ("payment_method".to_owned(), account_method()),
            ("purchaseTotals".to_owned(), totals),
        ],
    );
    Request { endpoint, method: HttpMethod::Post, params, body: Some(body) }
}

/// The payments endpoint of one provider.
pub open spec fn spec_transfer_endpoint(provider: ProviderId) -> Seq<char> {
    "sinap/api/v2/terms/"@ + spec_u64_digits(provider) + "/payments"@
}

/// The provider a transfer goes through: wallet-to-wallet transfers use the
/// wallet's own provider; a cellular top-up uses the carrier.
pub open spec fn spec_transfer_provider(direction: TransferDirection) -> ProviderId {
    match direction {
        TransferDirection::Qiwi { .. } => 99,
        TransferDirection::Cellular { carrier, .. } => carrier,
    }
}

/// The currency a transfer is denominated in: the chosen one for
/// wallet-to-wallet, roubles for a cellular top-up.
pub open spec fn spec_transfer_currency(direction: TransferDirection) -> Seq<char> {
    match direction {
        TransferDirection::Qiwi { to_currency, .. } => to_currency@,
        TransferDirection::Cellular { .. } => spec_rub_code(),
    }
}

/// The account a transfer goes to.
pub open spec fn spec_transfer_account(direction: TransferDirection) -> Seq<char> {
    match direction {
        TransferDirection::Qiwi { to_phone, .. } => to_phone@,
        TransferDirection::Cellular { to_phone, .. } => to_phone@,
    }
}

/// The transfer request's body: the chosen identifier as decimal text, the
/// sum, the fixed payment method, the target account, and the comment.
pub open spec fn spec_transfer_body(
    b: Json,
    id: u64,
    amount: Seq<char>,
    currency: Seq<char>,
    account: Seq<char>,
    comment: Seq<char>,
) -> bool {
    match b {
        Json::Obj(fs) => fs@.len() == 5 && fs@[0].0@ == "id"@ && json_is_str(
            fs@[0].1,
            spec_u64_digits(id),
        ) && fs@[1].0@ == "sum"@ && spec_money_obj(fs@[1].1, amount, currency) && fs@[2].0@
            == "paymentMethod"@ && spec_account_method(fs@[2].1) && fs@[3].0@ == "fields"@ && (
        match fs@[3].1 {
            Json::Obj(t) => t@.len() == 1 && t@[0].0@ == "account"@ && json_is_str(
                t@[0].1,
                account,
            ),
            _ => false,
        }) && fs@[4].0@ == "comment"@ && json_is_str(fs@[4].1, comment),
        _ => false,
    }
}

/// Build the transfer request: a POST against the direction's provider whose
/// body carries the identifier (the given one, or the caller's fallback),
/// the sum in the direction's currency, and the target account.
pub fn transfer_request(
    id: Option<u64>,
    fallback_id: u64,
    amount: String,
    direction: TransferDirection,
    comment: String,
) -> (r: Request)
    ensures
        r.endpoint@ == spec_transfer_endpoint(spec_transfer_provider(direction)),
        r.method == HttpMethod::Post,
        params_view(r.params@) == Seq::<(Seq<char>, Seq<char>)>::empty(),
        r.body matches Some(b) && spec_transfer_body(
            b,
            (match id {
                Some(i) => i,
                None => fallback_id,
            }),
            amount@,
            spec_transfer_currency(direction),
            spec_transfer_account(direction),
            comment@,
        ),
{
    let (provider, currency, account): (u64, String, String) = match direction {
        TransferDirection::Qiwi { to_phone, to_currency } => (99, to_currency, to_phone),
        TransferDirection::Cellular { carrier, to_phone } => (carrier, "643".to_owned(), to_phone),
    };
    let chosen: u64 = match id {
        Some(i) => i,
        None => fallback_id,
    };
    let mut endpoint = "sinap/api/v2/terms/".to_owned();
    let digits = u64_to_string(provider);
    endpoint.append(digits.as_str());
    endpoint.append("/payments");
    let params: Vec<(String, String)> = Vec::new();
    proof {
        assert(params_view(params@) =~= Seq::<(Seq<char>, Seq<char>)>::empty());
    }
    let fields_obj = Json::Obj(vec![("account".to_owned(), Json::Str(account))]);
    let body = Json::Obj(
        vec![
            ("id".to_owned(), Json::Str(u64_to_string(chosen))),
            ("sum".to_owned(), money_obj(amount, currency)),
            ("paymentMethod".to_owned(), account_method()),
            ("fields".to_owned(), fields_obj),
            ("comment".to_owned(), Json::Str(comment)),
        ],
    );
    Request { endpoint, method: HttpMethod::Post, params, body: Some(body) }
}

} // verus!
