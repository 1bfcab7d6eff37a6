use bill_qr::fns::{
    ApiReply, ApiRequest, AuthResponse, BillFetchResponse, Document, FnsApiError, FnsSession,
    FnsSettings, Method, Progress, Receipt, ReceiptItem, ReplyKind, RequestBody, Stage,
    TicketBody, TicketResponse,
};

fn settings() -> FnsSettings {
    FnsSettings {
        host: "irkkt-mobile.nalog.ru:8888".to_string(),
        inn: "7707083893".to_string(),
        password: "hunter2".to_string(),
        client_secret: "IyvrAbKt9h/8p6a7QPh8gpkXYQ4=".to_string(),
        device_id: "7C82010F-16CC-446B-8F66-FC4080C66521".to_string(),
        device_os: "Linux".to_string(),
    }
}

fn auth(session_id: &str) -> ApiReply {
    ApiReply::Auth(AuthResponse {
        session_id: session_id.to_string(),
        refresh_token: "r1".to_string(),
        phone: "+70000000000".to_string(),
        name: "Ivan".to_string(),
        email: "ivan@example.com".to_string(),
        surname: "Ivanov".to_string(),
    })
}

fn ticket(id: &str) -> ApiReply {
    ApiReply::Ticket(TicketResponse {
        kind: "kkt".to_string(),
        id: id.to_string(),
        status: 2,
        status_real: 2,
    })
}

fn item(name: &str, quantity: usize, price: u64) -> ReceiptItem {
    ReceiptItem {
        name: name.to_string(),
        nds: 2,
        nds_sum: 0,
        payment_type: 4,
        price,
        product_type: 1,
        quantity,
        sum: price.wrapping_mul(quantity as u64),
    }
}

fn bill(items: Vec<ReceiptItem>) -> ApiReply {
    ApiReply::Bill(BillFetchResponse {
        ticket: TicketBody { document: Document { receipt: Receipt { items } } },
    })
}

fn sent(progress: Progress) -> (FnsSession, ApiRequest) {
    match progress {
        Progress::Send(session, request) => (session, request),
        Progress::Finish(_) => panic!("the session finished where a call was expected"),
    }
}

fn failed(progress: Progress) -> FnsApiError {
    match progress {
        Progress::Finish(Err(error)) => error,
        Progress::Finish(Ok(_)) => panic!("the session gave a bill where an error was expected"),
        Progress::Send(_, _) => panic!("the session sent a call where an error was expected"),
    }
}

fn header(request: &ApiRequest, name: &str) -> Option<String> {
    request.headers.get(name).map(|value| value.to_str().unwrap().to_string())
}

const QUERY: &str = "t=20200727T1117&s=4850.00&fn=9287440300634471&i=13571&fp=3730902192&n=1";

#[test]
fn settings_with_plain_device_headers_are_valid() {
    assert!(settings().has_device_headers());
}

#[test]
fn settings_with_a_line_break_in_a_device_header_are_not_valid() {
    let mut broken = settings();
    broken.device_os = "Linux\n".to_string();
    assert!(!broken.has_device_headers());
    let mut broken = settings();
    broken.device_id = "a\u{7f}b".to_string();
    assert!(!broken.has_device_headers());
}

#[test]
fn device_headers_may_hold_tabs_and_letters_beyond_ascii() {
    let mut unusual = settings();
    unusual.device_os = "Линукс\t5".to_string();
    assert!(unusual.has_device_headers());
    let session = FnsSession::new(unusual);
    assert_eq!(session.headers().get("device-os").unwrap().as_bytes(), "Линукс\t5".as_bytes());
}

#[test]
fn new_session_carries_the_device_headers() {
    let session = FnsSession::new(settings());
    assert_eq!(session.stage(), Stage::Unauthenticated);
    assert_eq!(session.headers().len(), 2);
    assert_eq!(session.headers().get("Device-OS").unwrap(), "Linux");
    assert_eq!(session.headers().get("device-os").unwrap(), "Linux");
    assert_eq!(
        session.headers().get("Device-ID").unwrap(),
        "7C82010F-16CC-446B-8F66-FC4080C66521"
    );
    assert!(session.headers().get("sessionId").is_none());
    assert_eq!(session.settings().host, "irkkt-mobile.nalog.ru:8888");
}

#[test]
fn authorize_signs_in_with_the_settings() {
    let session = FnsSession::new(settings());
    let request = session.authorize();
    assert_eq!(request.method, Method::Post);
    assert_eq!(request.url, "https://irkkt-mobile.nalog.ru:8888/v2/mobile/users/lkfl/auth");
    assert_eq!(request.expects, ReplyKind::Auth);
    assert_eq!(request.headers.len(), 2);
    assert_eq!(header(&request, "Device-OS").unwrap(), "Linux");
    assert_eq!(header(&request, "Device-ID").unwrap(), "7C82010F-16CC-446B-8F66-FC4080C66521");
    match request.body {
        RequestBody::Auth(body) => {
            assert_eq!(body.inn, "7707083893");
            assert_eq!(body.password, "hunter2");
            assert_eq!(body.client_secret, "IyvrAbKt9h/8p6a7QPh8gpkXYQ4=");
        }
        _ => panic!("the call that authorizes carries the credentials"),
    }
}

#[test]
fn failed_authorization_ends_the_attempt() {
    let session = FnsSession::new(settings());
    let error = failed(session.advance(QUERY, ApiReply::Failed));
    assert!(matches!(error, FnsApiError::AuthorizationError));
}

#[test]
fn malformed_answer_to_the_authorization_ends_the_attempt() {
    let session = FnsSession::new(settings());
    let error = failed(session.advance(QUERY, ApiReply::Malformed));
    assert!(matches!(error, FnsApiError::AuthorizationError));
}

#[test]
fn session_id_that_cannot_be_a_header_ends_the_attempt() {
    let session = FnsSession::new(settings());
    let error = failed(session.advance(QUERY, auth("s1\r\nX-Injected: 1")));
    assert!(matches!(error, FnsApiError::AuthorizationError));
}

#[test]
fn reply_of_another_step_ends_the_attempt_with_the_error_of_the_stage() {
    let error = failed(FnsSession::new(settings()).advance(QUERY, ticket("t1")));
    assert!(matches!(error, FnsApiError::AuthorizationError));
    let error = failed(FnsSession::new(settings()).advance(QUERY, bill(Vec::new())));
    assert!(matches!(error, FnsApiError::AuthorizationError));

    let (session, _) = sent(FnsSession::new(settings()).advance(QUERY, auth("s1")));
    let error = failed(session.advance(QUERY, auth("s2")));
    assert!(matches!(error, FnsApiError::TicketCreationError));
    let (session, _) = sent(FnsSession::new(settings()).advance(QUERY, auth("s1")));
    let error = failed(session.advance(QUERY, bill(Vec::new())));
    assert!(matches!(error, FnsApiError::TicketCreationError));

    let (session, _) = sent(FnsSession::new(settings()).advance(QUERY, auth("s1")));
    let (session, _) = sent(session.advance(QUERY, ticket("t1")));
    let error = failed(session.advance(QUERY, ticket("t2")));
    assert!(matches!(error, FnsApiError::BillFetchingError));
}

#[test]
fn authorization_puts_the_session_id_into_the_headers() {
    let (session, request) = sent(FnsSession::new(settings()).advance(QUERY, auth("s1")));
    assert_eq!(session.stage(), Stage::Authorized);
    assert_eq!(session.headers().len(), 3);
    assert_eq!(session.headers().get("sessionId").unwrap(), "s1");
    assert_eq!(session.headers().get("Device-OS").unwrap(), "Linux");

    assert_eq!(request.method, Method::Post);
    assert_eq!(request.url, "https://irkkt-mobile.nalog.ru:8888/v2/ticket");
    assert_eq!(request.expects, ReplyKind::Ticket);
    assert_eq!(header(&request, "sessionId").unwrap(), "s1");
    assert_eq!(header(&request, "Device-OS").unwrap(), "Linux");
    assert_eq!(header(&request, "Device-ID").unwrap(), "7C82010F-16CC-446B-8F66-FC4080C66521");
    match request.body {
        RequestBody::CreateTicket(body) => assert_eq!(body.qr, QUERY),
        _ => panic!("the call that creates a ticket carries the query string"),
    }
}

#[test]
fn failed_ticket_creation_ends_the_attempt() {
    let (session, _) = sent(FnsSession::new(settings()).advance(QUERY, auth("s1")));
    let error = failed(session.advance(QUERY, ApiReply::Failed));
    assert!(matches!(error, FnsApiError::TicketCreationError));
}

#[test]
fn malformed_answer_to_the_ticket_creation_ends_the_attempt() {
    let (session, _) = sent(FnsSession::new(settings()).advance(QUERY, auth("s1")));
    let error = failed(session.advance(QUERY, ApiReply::Malformed));
    assert!(matches!(error, FnsApiError::TicketCreationError));
}

#[test]
fn ticket_is_fetched_by_its_id() {
    let (session, _) = sent(FnsSession::new(settings()).advance(QUERY, auth("s1")));
    let (session, request) = sent(session.advance(QUERY, ticket("t1")));
    assert_eq!(session.stage(), Stage::TicketCreated);
    assert_eq!(request.method, Method::Get);
    assert_eq!(request.url, "https://irkkt-mobile.nalog.ru:8888/v2/tickets/t1");
    assert_eq!(request.expects, ReplyKind::Bill);
    assert_eq!(request.headers.len(), 3);
    assert_eq!(header(&request, "sessionId").unwrap(), "s1");
    assert!(matches!(request.body, RequestBody::Empty));
}

#[test]
fn failed_bill_fetch_ends_the_attempt() {
    let (session, _) = sent(FnsSession::new(settings()).advance(QUERY, auth("s1")));
    let (session, _) = sent(session.advance(QUERY, ticket("t1")));
    let error = failed(session.advance(QUERY, ApiReply::Failed));
    assert!(matches!(error, FnsApiError::BillFetchingError));
}

#[test]
fn malformed_answer_to_the_bill_fetch_ends_the_attempt() {
    let (session, _) = sent(FnsSession::new(settings()).advance(QUERY, auth("s1")));
    let (session, _) = sent(session.advance(QUERY, ticket("t1")));
    let error = failed(session.advance(QUERY, ApiReply::Malformed));
    assert!(matches!(error, FnsApiError::BillFetchingError));
}

#[test]
fn bill_whose_total_does_not_fit_ends_the_attempt() {
    let (session, _) = sent(FnsSession::new(settings()).advance(QUERY, auth("s1")));
    let (session, _) = sent(session.advance(QUERY, ticket("t1")));
    let reply = bill(vec![item("Gold", 3, u64::MAX / 2)]);
    let error = failed(session.advance(QUERY, reply));
    assert!(matches!(error, FnsApiError::BillFetchingError));
}

#[test]
fn three_good_replies_give_the_bill() {
    let session = FnsSession::new(settings());
    let first = session.authorize();
    assert!(first.url.ends_with("/v2/mobile/users/lkfl/auth"));
    let (session, second) = sent(session.advance(QUERY, auth("s1")));
    assert!(second.url.ends_with("/v2/ticket"));
    let (session, third) = sent(session.advance(QUERY, ticket("t1")));
    assert!(third.url.ends_with("/v2/tickets/t1"));
    match session.advance(QUERY, bill(vec![item("Milk", 2, 150)])) {
        Progress::Finish(Ok(bill)) => {
            assert_eq!(bill.records.len(), 1);
            assert_eq!(bill.records[0].name, "Milk");
            assert_eq!(bill.records[0].quantity, 2);
            assert_eq!(bill.records[0].price, 150);
            assert_eq!(bill.total, 300);
        }
        _ => panic!("the third reply gives the bill"),
    }
}

#[test]
fn bill_keeps_the_order_of_the_receipt() {
    let (session, _) = sent(FnsSession::new(settings()).advance(QUERY, auth("s1")));
    let (session, _) = sent(session.advance(QUERY, ticket("t1")));
    let reply = bill(vec![item("c", 1, 30), item("a", 2, 10), item("b", 3, 20)]);
    match session.advance(QUERY, reply) {
        Progress::Finish(Ok(bill)) => {
            let names: Vec<&str> = bill.records.iter().map(|r| r.name.as_str()).collect();
            assert_eq!(names, vec!["c", "a", "b"]);
            assert_eq!(bill.total, 30 + 20 + 60);
        }
        _ => panic!("the third reply gives the bill"),
    }
}

#[test]
fn receipt_without_items_gives_an_empty_bill() {
    let (session, _) = sent(FnsSession::new(settings()).advance(QUERY, auth("s1")));
    let (session, _) = sent(session.advance(QUERY, ticket("t1")));
    match session.advance(QUERY, bill(Vec::new())) {
        Progress::Finish(Ok(bill)) => {
            assert!(bill.records.is_empty());
            assert_eq!(bill.total, 0);
        }
        _ => panic!("the third reply gives the bill"),
    }
}
