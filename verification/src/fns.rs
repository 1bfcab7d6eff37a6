//! The bill model and the session with the receipt service.
//!
//! A bill is fetched in three calls: authorize, create a ticket for the query
//! string, fetch the bill of that ticket. [`FnsSession`] decides what to send
//! next and what a reply means; sending is left to the caller. A session starts
//! with [`FnsSession::new`] and [`FnsSession::authorize`], and each reply goes
//! to [`FnsSession::advance`] until that returns [`Progress::Finish`].

use crate::headers::{
    copy_headers, header_fields, header_key, header_value_bytes, is_header_name, is_header_text,
    new_headers, no_fields, parse_header_value, set_header,
};
use reqwest::header::HeaderMap;
use vstd::pervasive::unreached;
use vstd::prelude::*;
use vstd::utf8::encode_utf8;

verus! {

/// Why no bill came out of a session.
#[derive(Debug)]
pub enum FnsApiError {
    /// A failure of the transport itself; the text names the cause.
    HttpError(String),
    AuthorizationError,
    TicketCreationError,
    BillFetchingError,
}

#[verifier::external_type_specification]
#[verifier::external_body]
pub struct ExTransportError(reqwest::Error);

/// The words of an error of `reqwest`.
pub uninterp spec fn transport_error_text(error: reqwest::Error) -> Seq<char>;

/// `reqwest::Error::to_string`: the error in words.
#[verifier::external_body]
fn describe_transport_error(error: &reqwest::Error) -> (text: String)
    ensures
        text@ == transport_error_text(*error),
{
    error.to_string()
}

impl FnsApiError {
    /// The error that stands for a failure of the transport: `HttpError` with
    /// the words of the failure.
    pub fn from_transport(error: &reqwest::Error) -> (mapped: Self)
        ensures
            mapped matches FnsApiError::HttpError(text) && text@ == transport_error_text(*error),
    {
        FnsApiError::HttpError(describe_transport_error(error))
    }

    /// The message that `message` returns.
    pub open spec fn text(&self) -> Seq<char> {
        match self {
            FnsApiError::AuthorizationError => "Failed to authorize"@,
            FnsApiError::TicketCreationError => "Failed to create ticker"@,
            FnsApiError::BillFetchingError => "Failed to fetch bill"@,
            FnsApiError::HttpError(err) => "Failed to perform request: "@ + err@,
        }
    }

    /// The error in words, for a person to read.
    pub fn message(&self) -> (text: String)
        ensures
            text@ == self.text(),
    {
        match self {
            FnsApiError::AuthorizationError => String::from_str("Failed to authorize"),
            FnsApiError::TicketCreationError => String::from_str("Failed to create ticker"),
            FnsApiError::BillFetchingError => String::from_str("Failed to fetch bill"),
            FnsApiError::HttpError(err) => {
                let mut text = String::from_str("Failed to perform request: ");
                text.append(err.as_str());
                text
            },
        }
    }
}

/// One line of a receipt.
#[derive(Debug)]
pub struct BillRecord {
    pub name: String,
    /// How many units were bought.
    pub quantity: usize,
    /// The price of one unit, in minor currency units.
    pub price: u64,
}

impl BillRecord {
    pub fn new(name: String, quantity: usize, price: u64) -> (record: Self)
        ensures
            record == (BillRecord { name, quantity, price }),
    {
        Self { name, quantity, price }
    }

    /// What this line adds to the total of a bill.
    pub open spec fn cost(&self) -> nat {
        (self.price * self.quantity) as nat
    }
}

/// The sum of the costs of `records`.
pub open spec fn records_total(records: Seq<BillRecord>) -> nat
    decreases records.len(),
{
    if records.len() == 0 {
        0
    } else {
        records_total(records.drop_last()) + records.last().cost()
    }
}

/// The lines of a receipt, in the order of the receipt, and what they cost together.
#[derive(Debug)]
pub struct Bill {
    pub records: Vec<BillRecord>,
    /// In minor currency units.
    pub total: u64,
}

impl Bill {
    /// The total is the sum over the records. `new` and `add_record` keep it so;
    /// a bill whose fields were written directly need not have it.
    pub open spec fn wf(&self) -> bool {
        self.total == records_total(self.records@)
    }

    pub fn new() -> (bill: Self)
        ensures
            bill.records@ == Seq::<BillRecord>::empty(),
            bill.total == 0,
            bill.wf(),
    {
        Self { records: Vec::new(), total: 0u64 }
    }

    /// Whether the total still fits after `record` is appended.
    pub open spec fn has_room_for(&self, record: &BillRecord) -> bool {
        self.total + record.cost() <= u64::MAX
    }

    /// Tests what `add_record` requires.
    pub fn can_take(&self, record: &BillRecord) -> (fits: bool)
        ensures
            fits == self.has_room_for(record),
    {
        match record.price.checked_mul(record.quantity as u64) {
            Some(cost) => self.total.checked_add(cost).is_some(),
            None => false,
        }
    }

    /// Appends `record` and adds its cost to the total.
    pub fn add_record(&mut self, record: BillRecord)
        requires
            old(self).has_room_for(&record),
        ensures
            final(self).records@ == old(self).records@.push(record),
            final(self).total == old(self).total + record.cost(),
            old(self).wf() ==> final(self).wf(),
    {
        proof {
            lemma_total_push(self.records@, record);
            assert(record.price * record.quantity <= u64::MAX) by (nonlinear_arith)
                requires
                    0 <= self.total,
                    self.total + record.price * record.quantity <= u64::MAX,
            ;
        }
        self.total += record.price * (record.quantity as u64);
        self.records.push(record);
    }
}

/// Appending one record adds its cost to the sum.
pub proof fn lemma_total_push(records: Seq<BillRecord>, record: BillRecord)
    ensures
        records_total(records.push(record)) == records_total(records) + record.cost(),
{
    assert(records.push(record).drop_last() =~= records);
}

/// The first `n` of `records` cost no more than all of them.
pub proof fn lemma_total_prefix(records: Seq<BillRecord>, n: int)
    requires
        0 <= n <= records.len(),
    ensures
        records_total(records.take(n)) <= records_total(records),
    decreases records.len(),
{
    if n == records.len() {
        assert(records.take(n) =~= records);
    } else {
        lemma_total_prefix(records.drop_last(), n);
        assert(records.drop_last().take(n) =~= records.take(n));
    }
}

/// What identifies this client to the receipt service.
#[derive(Clone)]
pub struct FnsSettings {
    pub host: String,
    /// The taxpayer number that the client signs in with.
    pub inn: String,
    pub password: String,
    pub client_secret: String,
    pub device_id: String,
    pub device_os: String,
}

impl FnsSettings {
    /// Whether the device id and the device system can be sent as headers.
    pub open spec fn device_headers_valid(&self) -> bool {
        is_header_text(self.device_os@) && is_header_text(self.device_id@)
    }

    /// Tests what `FnsSession::new` requires of the settings.
    pub fn has_device_headers(&self) -> (valid: bool)
        ensures
            valid == self.device_headers_valid(),
    {
        parse_header_value(self.device_os.as_str()).is_ok() && parse_header_value(
            self.device_id.as_str(),
        ).is_ok()
    }
}

/// The body of the call that authorizes.
pub struct AuthRequest {
    pub inn: String,
    pub password: String,
    pub client_secret: String,
}

/// What the service answers to an `AuthRequest`. The session keeps the session
/// id and nothing else.
pub struct AuthResponse {
    pub session_id: String,
    pub refresh_token: String,
    pub phone: String,
    pub name: String,
    pub email: String,
    pub surname: String,
}

/// The body of the call that creates a ticket.
pub struct CreateTickerRequest {
    /// The query string, as it was read or typed.
    pub qr: String,
}

/// What the service answers to a `CreateTickerRequest`. The session uses the id
/// and does not look at the two status codes.
pub struct TicketResponse {
    pub kind: String,
    pub id: String,
    pub status: i64,
    pub status_real: i64,
}

/// One item of a receipt as the service describes it.
pub struct ReceiptItem {
    pub name: String,
    pub nds: i64,
    pub nds_sum: i64,
    pub payment_type: i64,
    /// In minor currency units.
    pub price: u64,
    pub product_type: i64,
    pub quantity: usize,
    pub sum: u64,
}

pub struct Receipt {
    pub items: Vec<ReceiptItem>,
}

pub struct Document {
    pub receipt: Receipt,
}

pub struct TicketBody {
    pub document: Document,
}

/// What the service answers when the bill of a ticket is fetched.
pub struct BillFetchResponse {
    pub ticket: TicketBody,
}

impl BillFetchResponse {
    /// The items of the receipt, in the order of the document.
    pub open spec fn items(&self) -> Seq<ReceiptItem> {
        self.ticket.document.receipt.items@
    }
}

/// The bill record that stands for `item`.
pub open spec fn record_of(item: ReceiptItem) -> BillRecord {
    BillRecord { name: item.name, quantity: item.quantity, price: item.price }
}

/// The bill records that stand for `items`, in the same order.
pub open spec fn records_of(items: Seq<ReceiptItem>) -> Seq<BillRecord> {
    items.map_values(|item: ReceiptItem| record_of(item))
}

/// Whether a bill can hold `items`: their costs together fit its total.
pub open spec fn fits_bill(items: Seq<ReceiptItem>) -> bool {
    records_total(records_of(items)) <= u64::MAX
}

/// Builds the bill of `items`: one record for each, in the same order. There is
/// none where the total does not fit.
pub fn bill_of_items(items: Vec<ReceiptItem>) -> (made: Option<Bill>)
    ensures
        made is Some <==> fits_bill(items@),
        made matches Some(bill) ==> bill.records@ == records_of(items@) && bill.wf(),
{
    let ghost all = records_of(items@);
    let mut bill = Bill::new();
    for item in it: items
        invariant
            it.seq() == items@,
            all == records_of(items@),
            bill.records@ == all.take(it.index() as int),
            bill.wf(),
    {
        let ghost next = all.take(it.index() + 1);
        proof {
            assert(all[it.index() as int] == record_of(item));
            assert(next =~= bill.records@.push(record_of(item)));
            lemma_total_push(bill.records@, record_of(item));
            lemma_total_prefix(all, it.index() + 1);
        }
        let record = BillRecord::new(item.name, item.quantity, item.price);
        if !bill.can_take(&record) {
            return None;
        }
        bill.add_record(record);
    }
    proof {
        assert(all.take(all.len() as int) =~= all);
    }
    Some(bill)
}

/// How a call is made.
#[derive(Clone, Copy, Debug, PartialEq, Eq, Structural)]
pub enum Method {
    Get,
    Post,
}

/// What a call carries as its body.
pub enum RequestBody {
    Empty,
    Auth(AuthRequest),
    CreateTicket(CreateTickerRequest),
}

/// Which answer a call asks for.
#[derive(Clone, Copy, Debug, PartialEq, Eq, Structural)]
pub enum ReplyKind {
    Auth,
    Ticket,
    Bill,
}

/// One call to the receipt service, for the caller to send.
pub struct ApiRequest {
    pub method: Method,
    pub url: String,
    pub headers: HeaderMap,
    pub body: RequestBody,
    /// As what the answer is to be read.
    pub expects: ReplyKind,
}

/// What came of a call.
pub enum ApiReply {
    Auth(AuthResponse),
    Ticket(TicketResponse),
    Bill(BillFetchResponse),
    /// The call could not be made.
    Failed,
    /// The call was answered, and the answer could not be read as what the
    /// call asked for.
    Malformed,
}

/// How far a session has come. A session that has fetched its bill, or has
/// failed, is over: it is no session any more, and `Progress::Finish` holds what
/// came of it.
#[derive(Clone, Copy, Debug, PartialEq, Eq, Structural)]
pub enum Stage {
    /// Nothing was answered yet. The call to send is the one that authorizes.
    Unauthenticated,
    /// The service gave a session id. The call to send creates the ticket.
    Authorized,
    /// The service gave a ticket. The call to send fetches its bill.
    TicketCreated,
}

/// One attempt to fetch a bill: the settings, and the headers that every call
/// of the attempt carries.
pub struct FnsSession {
    settings: FnsSettings,
    headers: HeaderMap,
    stage: Stage,
}

/// A session as contracts see it.
pub struct SessionView {
    pub settings: FnsSettings,
    /// The fields of the headers, as `header_fields` names them.
    pub headers: Map<Seq<char>, Seq<u8>>,
    pub stage: Stage,
}

/// What the session does next.
pub enum Progress {
    /// The call to send, and the session that takes its reply.
    Send(FnsSession, ApiRequest),
    /// The attempt is over.
    Finish(Result<Bill, FnsApiError>),
}

/// The address of `path` on `host`.
pub open spec fn api_url(host: Seq<char>, path: Seq<char>) -> Seq<char> {
    "https://"@ + host + path
}

/// The headers of a session that has not authorized yet.
pub open spec fn device_headers(settings: FnsSettings) -> Map<Seq<char>, Seq<u8>> {
    no_fields().insert(header_key("Device-OS"@), encode_utf8(settings.device_os@)).insert(
        header_key("Device-ID"@),
        encode_utf8(settings.device_id@),
    )
}

impl SessionView {
    /// The error that a failure at this stage is reported as.
    pub open spec fn failure(&self) -> FnsApiError {
        match self.stage {
            Stage::Unauthenticated => FnsApiError::AuthorizationError,
            Stage::Authorized => FnsApiError::TicketCreationError,
            Stage::TicketCreated => FnsApiError::BillFetchingError,
        }
    }

    /// Whether `reply` lets a session at this stage go on: it answers the call
    /// of this stage, and the session can use what it holds.
    pub open spec fn accepts(&self, reply: ApiReply) -> bool {
        match reply {
            ApiReply::Auth(auth) => self.stage == Stage::Unauthenticated && is_header_text(
                auth.session_id@,
            ),
            ApiReply::Ticket(_) => self.stage == Stage::Authorized,
            ApiReply::Bill(fetched) => self.stage == Stage::TicketCreated && fits_bill(
                fetched.items(),
            ),
            ApiReply::Failed => false,
            ApiReply::Malformed => false,
        }
    }

    /// The session after it has taken the session id `session_id`.
    pub open spec fn authorized(&self, session_id: Seq<char>) -> SessionView {
        SessionView {
            settings: self.settings,
            headers: self.headers.insert(header_key("sessionId"@), encode_utf8(session_id)),
            stage: Stage::Authorized,
        }
    }

    /// The session after its ticket was created.
    pub open spec fn ticketed(&self) -> SessionView {
        SessionView { settings: self.settings, headers: self.headers, stage: Stage::TicketCreated }
    }

    /// Whether `request` is the call that authorizes this session.
    pub open spec fn is_auth_request(&self, request: ApiRequest) -> bool {
        &&& request.method == Method::Post
        &&& request.url@ == api_url(self.settings.host@, "/v2/mobile/users/lkfl/auth"@)
        &&& header_fields(request.headers) == self.headers
        &&& request.body == RequestBody::Auth(
            AuthRequest {
                inn: self.settings.inn,
                password: self.settings.password,
                client_secret: self.settings.client_secret,
            },
        )
        &&& request.expects == ReplyKind::Auth
    }

    /// Whether `request` is the call that creates the ticket for `qr_query`.
    pub open spec fn is_ticket_request(&self, qr_query: Seq<char>, request: ApiRequest) -> bool {
        &&& request.method == Method::Post
        &&& request.url@ == api_url(self.settings.host@, "/v2/ticket"@)
        &&& header_fields(request.headers) == self.headers
        &&& request.expects == ReplyKind::Ticket
        &&& request.body matches RequestBody::CreateTicket(body)
        &&& body.qr@ == qr_query
    }

    /// Whether `request` is the call that fetches the bill of the ticket `ticket_id`.
    pub open spec fn is_bill_request(&self, ticket_id: Seq<char>, request: ApiRequest) -> bool {
        &&& request.method == Method::Get
        &&& request.url@ == api_url(self.settings.host@, "/v2/tickets/"@ + ticket_id)
        &&& header_fields(request.headers) == self.headers
        &&& request.body == RequestBody::Empty
        &&& request.expects == ReplyKind::Bill
    }

    /// What `FnsSession::advance` does: `progress` is what a session `self`
    /// makes of `reply`, where `qr_query` is the query string of the attempt.
    pub open spec fn advances(
        &self,
        qr_query: Seq<char>,
        reply: ApiReply,
        progress: Progress,
    ) -> bool {
        if self.accepts(reply) {
            match reply {
                ApiReply::Auth(auth) => {
                    &&& progress matches Progress::Send(next, request)
                    &&& next@ == self.authorized(auth.session_id@)
                    &&& next@.is_ticket_request(qr_query, request)
                },
                ApiReply::Ticket(ticket) => {
                    &&& progress matches Progress::Send(next, request)
                    &&& next@ == self.ticketed()
                    &&& next@.is_bill_request(ticket.id@, request)
                },
                ApiReply::Bill(fetched) => {
                    &&& progress matches Progress::Finish(Ok(bill))
                    &&& bill.records@ == records_of(fetched.items())
                    &&& bill.wf()
                },
                ApiReply::Failed => false,
                ApiReply::Malformed => false,
            }
        } else {
            progress == Progress::Finish(Err(self.failure()))
        }
    }
}

impl View for FnsSession {
    type V = SessionView;

    closed spec fn view(&self) -> SessionView {
        SessionView {
            settings: self.settings,
            headers: header_fields(self.headers),
            stage: self.stage,
        }
    }
}

/// The text `"https://"`, `host` and `path` in a row.
fn make_url(host: &str, path: &str) -> (url: String)
    ensures
        url@ == api_url(host@, path@),
{
    let mut url = String::from_str("https://");
    url.append(host);
    url.append(path);
    url
}

/// The three header names of a session are names that the map takes.
proof fn lemma_session_header_names()
    ensures
        is_header_name("Device-OS"@),
        is_header_name("Device-ID"@),
        is_header_name("sessionId"@),
{
    reveal_strlit("Device-OS");
    reveal_strlit("Device-ID");
    reveal_strlit("sessionId");
}

/// A map with one more field has at most one more name.
proof fn lemma_insert_grows_by_one(fields: Map<Seq<char>, Seq<u8>>, name: Seq<char>, bytes: Seq<u8>)
    requires
        fields.dom().finite(),
    ensures
        fields.insert(name, bytes).dom().finite(),
        fields.insert(name, bytes).dom().len() <= fields.dom().len() + 1,
{
    assert(fields.insert(name, bytes).dom() =~= fields.dom().insert(name));
}

impl FnsSession {
    /// The headers hold as many names as the stage allows: the two of the
    /// device, and the session id once the session is authorized.
    #[verifier::type_invariant]
    spec fn inv(self) -> bool {
        &&& header_fields(self.headers).dom().finite()
        &&& header_fields(self.headers).dom().len() <= (if self.stage == Stage::Unauthenticated {
            2nat
        } else {
            3nat
        })
    }

    /// A session that has not authorized yet. Its headers name the device.
    pub fn new(settings: FnsSettings) -> (session: Self)
        requires
            settings.device_headers_valid(),
        ensures
            session@ == (SessionView {
                settings,
                headers: device_headers(settings),
                stage: Stage::Unauthenticated,
            }),
    {
        let mut headers = new_headers();
        let device_os = match parse_header_value(settings.device_os.as_str()) {
            Ok(value) => value,
            Err(_) => unreached(),
        };
        let device_id = match parse_header_value(settings.device_id.as_str()) {
            Ok(value) => value,
            Err(_) => unreached(),
        };
        proof {
            lemma_session_header_names();
            lemma_insert_grows_by_one(
                no_fields(),
                header_key("Device-OS"@),
                header_value_bytes(device_os),
            );
        }
        set_header(&mut headers, "Device-OS", device_os);
        proof {
            lemma_insert_grows_by_one(
                header_fields(headers),
                header_key("Device-ID"@),
                header_value_bytes(device_id),
            );
        }
        set_header(&mut headers, "Device-ID", device_id);
        Self { settings, headers, stage: Stage::Unauthenticated }
    }

    pub fn settings(&self) -> (settings: &FnsSettings)
        ensures
            *settings == self@.settings,
    {
        &self.settings
    }

    /// The headers that the next call carries.
    pub fn headers(&self) -> (headers: &HeaderMap)
        ensures
            header_fields(*headers) == self@.headers,
    {
        &self.headers
    }

    pub fn stage(&self) -> (stage: Stage)
        ensures
            stage == self@.stage,
    {
        self.stage
    }

    /// The call that authorizes: it signs in with the settings.
    pub fn authorize(&self) -> (request: ApiRequest)
        ensures
            self@.is_auth_request(request),
    {
        ApiRequest {
            method: Method::Post,
            url: make_url(self.settings.host.as_str(), "/v2/mobile/users/lkfl/auth"),
            headers: copy_headers(&self.headers),
            body: RequestBody::Auth(
                AuthRequest {
                    inn: self.settings.inn.clone(),
                    password: self.settings.password.clone(),
                    client_secret: self.settings.client_secret.clone(),
                },
            ),
            expects: ReplyKind::Auth,
        }
    }

    /// The call that creates the ticket for `qr_query`.
    pub fn create_ticker(&self, qr_query: &str) -> (request: ApiRequest)
        ensures
            self@.is_ticket_request(qr_query@, request),
    {
        ApiRequest {
            method: Method::Post,
            url: make_url(self.settings.host.as_str(), "/v2/ticket"),
            headers: copy_headers(&self.headers),
            body: RequestBody::CreateTicket(CreateTickerRequest { qr: String::from_str(qr_query) }),
            expects: ReplyKind::Ticket,
        }
    }

    /// The call that fetches the bill of the ticket `ticket_id`.
    pub fn fetch_bill(&self, ticket_id: &str) -> (request: ApiRequest)
        ensures
            self@.is_bill_request(ticket_id@, request),
    {
        let mut path = String::from_str("/v2/tickets/");
        path.append(ticket_id);
        ApiRequest {
            method: Method::Get,
            url: make_url(self.settings.host.as_str(), path.as_str()),
            headers: copy_headers(&self.headers),
            body: RequestBody::Empty,
            expects: ReplyKind::Bill,
        }
    }

    /// Takes the reply to the call that the session sent last, and says what
    /// comes next. A reply that the stage does not accept ends the attempt with
    /// the error of the stage, and nothing more is sent.
    pub fn advance(self, qr_query: &str, reply: ApiReply) -> (progress: Progress)
        ensures
            self@.advances(qr_query@, reply, progress),
    {
        proof {
            use_type_invariant(&self);
            lemma_session_header_names();
        }
        let FnsSession { settings, headers, stage } = self;
        match reply {
            ApiReply::Auth(auth) => {
                if stage != Stage::Unauthenticated {
                    return Progress::Finish(Err(failure_at(stage)));
                }
                match parse_header_value(auth.session_id.as_str()) {
                    Ok(session_id) => {
                        let mut headers = headers;
                        proof {
                            lemma_insert_grows_by_one(
                                header_fields(headers),
                                header_key("sessionId"@),
                                header_value_bytes(session_id),
                            );
                        }
                        set_header(&mut headers, "sessionId", session_id);
                        let next = FnsSession { settings, headers, stage: Stage::Authorized };
                        let request = next.create_ticker(qr_query);
                        Progress::Send(next, request)
                    },
                    Err(_) => Progress::Finish(Err(FnsApiError::AuthorizationError)),
                }
            },
            ApiReply::Ticket(ticket) => {
                if stage != Stage::Authorized {
                    return Progress::Finish(Err(failure_at(stage)));
                }
                let next = FnsSession { settings, headers, stage: Stage::TicketCreated };
                let request = next.fetch_bill(ticket.id.as_str());
                Progress::Send(next, request)
            },
            ApiReply::Bill(fetched) => {
                if stage != Stage::TicketCreated {
                    return Progress::Finish(Err(failure_at(stage)));
                }
                match bill_of_items(fetched.ticket.document.receipt.items) {
                    Some(bill) => Progress::Finish(Ok(bill)),
                    None => Progress::Finish(Err(FnsApiError::BillFetchingError)),
                }
            },
            ApiReply::Failed => Progress::Finish(Err(failure_at(stage))),
            ApiReply::Malformed => Progress::Finish(Err(failure_at(stage))),
        }
    }
}

/// A session that has not authorized ends with `AuthorizationError` on every
/// reply but an `Auth` whose session id can be sent as a header. No call
/// follows: the ticket is not asked for.
pub proof fn lemma_authorization_failure(
    session: SessionView,
    qr_query: Seq<char>,
    reply: ApiReply,
    progress: Progress,
)
    requires
        session.stage == Stage::Unauthenticated,
        !(reply matches ApiReply::Auth(auth) && is_header_text(auth.session_id@)),
        session.advances(qr_query, reply, progress),
    ensures
        progress == Progress::Finish(Err(FnsApiError::AuthorizationError)),
{
}

/// A session that was authorized ends with `TicketCreationError` on every
/// reply but a `Ticket`. No call follows: the bill is not asked for.
pub proof fn lemma_ticket_creation_failure(
    session: SessionView,
    qr_query: Seq<char>,
    first: ApiReply,
    after_first: Progress,
    second: ApiReply,
    after_second: Progress,
)
    requires
        session.stage == Stage::Unauthenticated,
        session.advances(qr_query, first, after_first),
        after_first matches Progress::Send(authorized, _) && authorized@.advances(
            qr_query,
            second,
            after_second,
        ),
        !(second is Ticket),
    ensures
        after_second == Progress::Finish(Err(FnsApiError::TicketCreationError)),
{
}

/// A session whose ticket was created ends with `BillFetchingError` on every
/// reply but a `Bill` whose items fit a bill.
pub proof fn lemma_bill_fetching_failure(
    session: SessionView,
    qr_query: Seq<char>,
    first: ApiReply,
    after_first: Progress,
    second: ApiReply,
    after_second: Progress,
    third: ApiReply,
    after_third: Progress,
)
    requires
        session.stage == Stage::Unauthenticated,
        session.advances(qr_query, first, after_first),
        after_first matches Progress::Send(authorized, _) && authorized@.advances(
            qr_query,
            second,
            after_second,
        ),
        after_second matches Progress::Send(ticketed, _) && ticketed@.advances(
            qr_query,
            third,
            after_third,
        ),
        !(third matches ApiReply::Bill(fetched) && fits_bill(fetched.items())),
    ensures
        after_third == Progress::Finish(Err(FnsApiError::BillFetchingError)),
{
}

/// Three replies that are accepted in turn end the attempt with the bill of
/// the items that the last one holds; the calls in between carry the session
/// id of the first and ask for the ticket of the second.
pub proof fn lemma_resolution(
    session: SessionView,
    qr_query: Seq<char>,
    auth: AuthResponse,
    after_auth: Progress,
    ticket: TicketResponse,
    after_ticket: Progress,
    fetched: BillFetchResponse,
    after_bill: Progress,
)
    requires
        session.stage == Stage::Unauthenticated,
        is_header_text(auth.session_id@),
        fits_bill(fetched.items()),
        session.advances(qr_query, ApiReply::Auth(auth), after_auth),
        after_auth matches Progress::Send(authorized, _) ==> authorized@.advances(
            qr_query,
            ApiReply::Ticket(ticket),
            after_ticket,
        ),
        after_ticket matches Progress::Send(ticketed, _) ==> ticketed@.advances(
            qr_query,
            ApiReply::Bill(fetched),
            after_bill,
        ),
    ensures
        after_auth matches Progress::Send(authorized, ticket_request) && authorized@
            == session.authorized(auth.session_id@) && authorized@.is_ticket_request(
            qr_query,
            ticket_request,
        ),
        after_ticket matches Progress::Send(ticketed, bill_request) && ticketed@.is_bill_request(
            ticket.id@,
            bill_request,
        ) && ticketed@.headers == session.authorized(auth.session_id@).headers,
        after_bill matches Progress::Finish(Ok(bill)) && bill.records@ == records_of(
            fetched.items(),
        ) && bill.total == records_total(records_of(fetched.items())),
{
}

/// The error that a failure at `stage` is reported as.
fn failure_at(stage: Stage) -> (error: FnsApiError)
    ensures
        forall|session: SessionView| session.stage == stage ==> error == #[trigger] session.failure(),
{
    match stage {
        Stage::Unauthenticated => FnsApiError::AuthorizationError,
        Stage::Authorized => FnsApiError::TicketCreationError,
        Stage::TicketCreated => FnsApiError::BillFetchingError,
    }
}

} // verus!
