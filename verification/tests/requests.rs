use qiwi::history::{history_request, PaginationCursor};
use qiwi::json::Json;
use qiwi::models::TransferDirection;
use qiwi::numbers::u64_to_string;
use qiwi::requests::{
    commission_info_request, commission_quote_request, profile_request, transfer_request,
};
use qiwi::status_is_failure;
use qiwi::transport::{CallerWrapper, HttpMethod, HttpReply, Request, Transport};

#[test]
fn u64_renders_in_decimal() {
    assert_eq!(u64_to_string(0), "0");
    assert_eq!(u64_to_string(7), "7");
    assert_eq!(u64_to_string(50), "50");
    assert_eq!(u64_to_string(1234567890), "1234567890");
    assert_eq!(u64_to_string(u64::MAX), "18446744073709551615");
}

#[test]
fn failure_statuses_are_the_4xx_and_5xx_range() {
    assert!(!status_is_failure(200));
    assert!(!status_is_failure(399));
    assert!(status_is_failure(400));
    assert!(status_is_failure(404));
    assert!(status_is_failure(599));
    assert!(!status_is_failure(600));
}

#[test]
fn profile_request_asks_for_all_sections() {
    let r = profile_request();
    assert_eq!(r.endpoint, "person-profile/v1/profile/current");
    assert_eq!(r.method, HttpMethod::Get);
    assert!(r.body.is_none());
    assert_eq!(
        r.params,
        vec![
            ("authInfoEnabled".to_owned(), "true".to_owned()),
            ("contractInfoEnabled".to_owned(), "true".to_owned()),
            ("userInfoEnabled".to_owned(), "true".to_owned()),
        ]
    );
}

#[test]
fn history_request_without_cursor_has_only_the_page_size() {
    let r = history_request(&"79001112233".to_owned(), &None);
    assert_eq!(r.endpoint, "payment-history/v2/persons/79001112233/payments");
    assert_eq!(r.method, HttpMethod::Get);
    assert!(r.body.is_none());
    assert_eq!(r.params, vec![("rows".to_owned(), "50".to_owned())]);
}

#[test]
fn history_request_with_cursor_threads_it_unmodified() {
    let cursor = PaginationCursor { next_date: "2020-01-01T00:00:00+03:00".to_owned(), next_id: 42 };
    let r = history_request(&"7900".to_owned(), &Some(cursor));
    assert_eq!(
        r.params,
        vec![
            ("rows".to_owned(), "50".to_owned()),
            ("nextTxnDate".to_owned(), "2020-01-01T00:00:00+03:00".to_owned()),
            ("nextTxnId".to_owned(), "42".to_owned()),
        ]
    );
}

#[test]
fn commission_info_request_names_the_provider() {
    let r = commission_info_request(1717);
    assert_eq!(r.endpoint, "sinap/providers/1717/form");
    assert_eq!(r.method, HttpMethod::Get);
    assert!(r.params.is_empty());
    assert!(r.body.is_none());
}

fn account_method() -> Json {
    Json::Obj(vec![
        ("type".to_owned(), Json::Str("Account".to_owned())),
        ("accountId".to_owned(), Json::Str("643".to_owned())),
    ])
}

#[test]
fn commission_quote_request_carries_the_amount_verbatim() {
    let r = commission_quote_request(99, "79001112233".to_owned(), "1.50".to_owned());
    assert_eq!(r.endpoint, "sinap/providers/99/onlineCommission");
    assert_eq!(r.method, HttpMethod::Post);
    assert!(r.params.is_empty());
    let expected = Json::Obj(vec![
        ("account".to_owned(), Json::Str("79001112233".to_owned())),
        ("payment_method".to_owned(), account_method()),
        (
            "purchaseTotals".to_owned(),
            Json::Obj(vec![(
                "total".to_owned(),
                Json::Obj(vec![
                    ("amount".to_owned(), Json::NumText("1.50".to_owned())),
                    ("currency".to_owned(), Json::Str("643".to_owned())),
                ]),
            )]),
        ),
    ]);
    assert_eq!(r.body, Some(expected));
}

#[test]
fn transfer_request_uses_the_fallback_id_when_none_is_given() {
    let direction = TransferDirection::Cellular { carrier: 2, to_phone: "79001112233".to_owned() };
    let r = transfer_request(None, 1500000000000, "99.90".to_owned(), direction, "hi".to_owned());
    assert_eq!(r.endpoint, "sinap/api/v2/terms/2/payments");
    assert_eq!(r.method, HttpMethod::Post);
    let expected = Json::Obj(vec![
        ("id".to_owned(), Json::Str("1500000000000".to_owned())),
        (
            "sum".to_owned(),
            Json::Obj(vec![
                ("amount".to_owned(), Json::NumText("99.90".to_owned())),
                ("currency".to_owned(), Json::Str("643".to_owned())),
            ]),
        ),
        ("paymentMethod".to_owned(), account_method()),
        (
            "fields".to_owned(),
            Json::Obj(vec![("account".to_owned(), Json::Str("79001112233".to_owned()))]),
        ),
        ("comment".to_owned(), Json::Str("hi".to_owned())),
    ]);
    assert_eq!(r.body, Some(expected));
}

#[test]
fn transfer_to_a_wallet_uses_the_wallet_provider_and_currency() {
    let direction =
        TransferDirection::Qiwi { to_phone: "79003334455".to_owned(), to_currency: "840".to_owned() };
    let r = transfer_request(Some(11), 22, "5".to_owned(), direction, "".to_owned());
    assert_eq!(r.endpoint, "sinap/api/v2/terms/99/payments");
    match r.body {
        Some(Json::Obj(fields)) => {
            assert_eq!(fields[0], ("id".to_owned(), Json::Str("11".to_owned())));
            assert_eq!(
                fields[1],
                (
                    "sum".to_owned(),
                    Json::Obj(vec![
                        ("amount".to_owned(), Json::NumText("5".to_owned())),
                        ("currency".to_owned(), Json::Str("840".to_owned())),
                    ])
                )
            );
        }
        other => panic!("expected an object body, got {:?}", other),
    }
}

struct OneReply {
    reply: Option<Result<HttpReply, String>>,
}

impl Transport for OneReply {
    fn call(&mut self, _req: &Request) -> Result<HttpReply, String> {
        self.reply.take().expect("only one call is expected")
    }
}

#[test]
fn commission_info_unwraps_the_wire_wrapper() {
    let body = r#"{"commission":{"ranges":[{"rate":0.01}]}}"#;
    let mut client = qiwi::Client::new(
        OneReply { reply: Some(Ok(HttpReply { status: 200, body: body.to_owned() })) },
        "7900".to_owned(),
    );
    let info = client.commission_info(99).expect("the call succeeds");
    match info.terms {
        Json::Obj(fields) => assert_eq!(fields[0].0, "ranges"),
        other => panic!("unexpected terms {:?}", other),
    }
}

#[test]
fn commission_quote_returns_the_amount_node() {
    let body = r#"{"qwCommission":{"amount":2.58}}"#;
    let mut client = qiwi::Client::new(
        OneReply { reply: Some(Ok(HttpReply { status: 200, body: body.to_owned() })) },
        "7900".to_owned(),
    );
    let amount = client
        .commission_quote(99, "79001112233".to_owned(), "100".to_owned())
        .expect("the call succeeds");
    assert_eq!(amount, Json::NumText("2.58".to_owned()));
}

#[test]
fn profile_info_decodes_the_three_sections() {
    let body = r#"{"authInfo":{"personId":7},"contractInfo":{"blocked":false},"userInfo":{"language":"ru"}}"#;
    let mut client = qiwi::Client::new(
        OneReply { reply: Some(Ok(HttpReply { status: 200, body: body.to_owned() })) },
        "7900".to_owned(),
    );
    let p = client.profile_info().expect("the call succeeds");
    assert_eq!(p.auth_info, Json::Obj(vec![("personId".to_owned(), Json::Num(7))]));
    assert_eq!(p.contract_info, Json::Obj(vec![("blocked".to_owned(), Json::Bool(false))]));
    assert_eq!(p.user_info, Json::Obj(vec![("language".to_owned(), Json::Str("ru".to_owned()))]));
}

#[test]
fn transfer_surfaces_the_acknowledgement() {
    let body = r#"{"id":"150217","fields":{"account":"79003334455"}}"#;
    let mut client = qiwi::Client::new(
        OneReply { reply: Some(Ok(HttpReply { status: 200, body: body.to_owned() })) },
        "7900".to_owned(),
    );
    let direction =
        TransferDirection::Qiwi { to_phone: "79003334455".to_owned(), to_currency: "643".to_owned() };
    let t = client
        .transfer(Some(150217), 0, "10".to_owned(), direction, "thanks".to_owned())
        .expect("the call succeeds");
    assert_eq!(t.id, "150217");
}

#[test]
fn network_failure_is_tagged_with_its_layer() {
    let mut client = qiwi::Client::new(
        OneReply { reply: Some(Err("dns failure".to_owned())) },
        "7900".to_owned(),
    );
    match client.profile_info() {
        Err(qiwi::Error::TransportError {
            source: qiwi::transport::Error::NetworkError { description },
        }) => assert_eq!(description, "dns failure"),
        other => panic!("expected the network failure, got {:?}", other),
    }
}
