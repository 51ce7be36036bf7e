use qiwi::history::{FetchState, PaymentHistoryStream};
use qiwi::json::Json;
use qiwi::transport::{CallerWrapper, HttpReply, Request, Transport};
use qiwi::{Client, Error};

/// A scripted transport: hands out prepared outcomes in order and records
/// every request it saw.
struct Scripted {
    replies: Vec<Result<HttpReply, String>>,
    calls: Vec<(String, Vec<(String, String)>, bool)>,
}

impl Scripted {
    fn new(replies: Vec<Result<HttpReply, String>>) -> Self {
        Scripted { replies, calls: Vec::new() }
    }
}

impl Transport for Scripted {
    fn call(&mut self, req: &Request) -> Result<HttpReply, String> {
        self.calls.push((req.endpoint.clone(), req.params.clone(), req.body.is_some()));
        assert!(!self.replies.is_empty(), "unexpected extra call: {}", req.endpoint);
        self.replies.remove(0)
    }
}

fn ok_page(body: &str) -> Result<HttpReply, String> {
    Ok(HttpReply { status: 200, body: body.to_owned() })
}

fn entry(x: u64) -> Json {
    Json::Obj(vec![("txnId".to_owned(), Json::Num(x))])
}

fn drain(
    stream: &mut PaymentHistoryStream,
    caller: &mut CallerWrapper<Scripted>,
) -> (Vec<Json>, Option<Error>) {
    let mut entries = Vec::new();
    let mut error = None;
    while let Some(item) = stream.next(caller) {
        match item {
            Ok(e) => entries.push(e),
            Err(e) => {
                error = Some(e);
                break;
            }
        }
    }
    (entries, error)
}

#[test]
fn cursor_is_threaded_into_the_second_call() {
    let page1 = r#"{"data":[{"txnId":1},{"txnId":2}],"nextTxnDate":"d1","nextTxnId":7}"#;
    let page2 = r#"{"data":[{"txnId":3}]}"#;
    let client = Client::new(Scripted::new(vec![ok_page(page1), ok_page(page2)]), "79001112233".to_owned());
    let mut stream = client.payment_history();
    let mut caller = client.caller;
    let (entries, error) = drain(&mut stream, &mut caller);
    assert!(error.is_none());
    assert_eq!(entries, vec![entry(1), entry(2), entry(3)]);
    let calls = &caller.transport.calls;
    assert_eq!(calls.len(), 2);
    for (endpoint, params, has_body) in calls {
        assert_eq!(endpoint, "payment-history/v2/persons/79001112233/payments");
        assert!(params.contains(&("rows".to_owned(), "50".to_owned())));
        assert!(!has_body);
    }
    assert_eq!(calls[0].1.len(), 1);
    assert!(calls[1].1.contains(&("nextTxnDate".to_owned(), "d1".to_owned())));
    assert!(calls[1].1.contains(&("nextTxnId".to_owned(), "7".to_owned())));
    assert_eq!(stream.state, FetchState::Done);
}

#[test]
fn missing_txn_id_ends_the_sequence() {
    let page = r#"{"data":[{"txnId":1}],"nextTxnDate":"d1"}"#;
    let client = Client::new(Scripted::new(vec![ok_page(page)]), "7900".to_owned());
    let mut stream = client.payment_history();
    let mut caller = client.caller;
    let (entries, error) = drain(&mut stream, &mut caller);
    assert!(error.is_none());
    assert_eq!(entries, vec![entry(1)]);
    assert_eq!(caller.transport.calls.len(), 1);
}

#[test]
fn missing_txn_date_ends_the_sequence() {
    let page = r#"{"data":[{"txnId":1}],"nextTxnId":7}"#;
    let client = Client::new(Scripted::new(vec![ok_page(page)]), "7900".to_owned());
    let mut stream = client.payment_history();
    let mut caller = client.caller;
    let (entries, error) = drain(&mut stream, &mut caller);
    assert!(error.is_none());
    assert_eq!(entries, vec![entry(1)]);
    assert_eq!(caller.transport.calls.len(), 1);
}

#[test]
fn transport_failure_on_page_two_is_the_terminal_element() {
    let page1 = r#"{"data":[{"txnId":1},{"txnId":2}],"nextTxnDate":"d1","nextTxnId":7}"#;
    let client = Client::new(
        Scripted::new(vec![ok_page(page1), Err("connection reset".to_owned())]),
        "7900".to_owned(),
    );
    let mut stream = client.payment_history();
    let mut caller = client.caller;
    let (entries, error) = drain(&mut stream, &mut caller);
    assert_eq!(entries, vec![entry(1), entry(2)]);
    match error {
        Some(Error::TransportError {
            source: qiwi::transport::Error::NetworkError { description },
        }) => assert_eq!(description, "connection reset"),
        other => panic!("expected the network failure, got {:?}", other),
    }
    // The sequence has ended; no third call is issued.
    assert_eq!(stream.next(&mut caller), None);
    assert_eq!(caller.transport.calls.len(), 2);
}

#[test]
fn http_error_with_structured_body_is_a_domain_error() {
    let client = Client::new(
        Scripted::new(vec![Ok(HttpReply {
            status: 400,
            body: r#"{"errorCode":"QWPRC-220"}"#.to_owned(),
        })]),
        "7900".to_owned(),
    );
    let mut stream = client.payment_history();
    let mut caller = client.caller;
    let (entries, error) = drain(&mut stream, &mut caller);
    assert!(entries.is_empty());
    match error {
        Some(Error::QiwiError { description }) => assert_eq!(description, "QWPRC-220"),
        other => panic!("expected the domain error, got {:?}", other),
    }
}

#[test]
fn http_error_without_envelope_keeps_status_and_body() {
    let client = Client::new(
        Scripted::new(vec![Ok(HttpReply { status: 503, body: "gateway down".to_owned() })]),
        "7900".to_owned(),
    );
    let mut stream = client.payment_history();
    let mut caller = client.caller;
    let (_, error) = drain(&mut stream, &mut caller);
    match error {
        Some(Error::TransportError {
            source: qiwi::transport::Error::NetworkError { description },
        }) => {
            assert_eq!(description, "received HTTP status 503 with body: gateway down");
        }
        other => panic!("expected a network-layer error, got {:?}", other),
    }
}

#[test]
fn empty_history_yields_nothing() {
    let client = Client::new(Scripted::new(vec![ok_page(r#"{"data":[]}"#)]), "7900".to_owned());
    let mut stream = client.payment_history();
    let mut caller = client.caller;
    assert_eq!(stream.next(&mut caller), None);
    assert_eq!(caller.transport.calls.len(), 1);
    assert_eq!(stream.state, FetchState::Done);
}

#[test]
fn empty_page_with_cursor_is_skipped() {
    let page1 = r#"{"data":[],"nextTxnDate":"d1","nextTxnId":7}"#;
    let page2 = r#"{"data":[{"txnId":5}]}"#;
    let client = Client::new(Scripted::new(vec![ok_page(page1), ok_page(page2)]), "7900".to_owned());
    let mut stream = client.payment_history();
    let mut caller = client.caller;
    let (entries, error) = drain(&mut stream, &mut caller);
    assert!(error.is_none());
    assert_eq!(entries, vec![entry(5)]);
    assert_eq!(caller.transport.calls.len(), 2);
}
