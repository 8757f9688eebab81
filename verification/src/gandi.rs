//! Client side of the Gandi LiveDNS record API.
//!
//! The client operates on one record: the one under a record name in a
//! domain. It says what to send and judges what came back; sending is left
//! to the caller.

use crate::error::Error;
use crate::http::{Header, HeaderView, HttpRequest, HttpRequestView, Method};
use vstd::prelude::*;
use vstd::string::*;

verus! {

/// Root of the LiveDNS API.
pub const GANDI_BASE_URL: &'static str = "https://api.gandi.net/v5/livedns";

/// The status that answers a successful read.
pub const STATUS_OK: u16 = 200;

/// The status that answers a successful write.
pub const STATUS_CREATED: u16 = 201;

/// Where the API lives and the key that opens it.
#[derive(Debug, Clone, PartialEq, Eq)]
pub struct GandiClient {
    pub base_url: String,
    pub token: String,
}

/// A record set as the provider describes it.
#[derive(Debug, Clone, PartialEq, Eq)]
pub struct DnsRecord {
    pub rrset_href: String,
    pub rrset_name: String,
    pub rrset_type: String,
    pub rrset_values: Vec<String>,
    pub rrset_ttl: u32,
}

/// What `DnsRecord` stands for.
pub struct DnsRecordView {
    pub rrset_href: Seq<char>,
    pub rrset_name: Seq<char>,
    pub rrset_type: Seq<char>,
    pub rrset_values: Seq<Seq<char>>,
    pub rrset_ttl: u32,
}

impl View for DnsRecord {
    type V = DnsRecordView;

    open spec fn view(&self) -> DnsRecordView {
        DnsRecordView {
            rrset_href: self.rrset_href@,
            rrset_name: self.rrset_name@,
            rrset_type: self.rrset_type@,
            rrset_values: self.rrset_values@.map_values(|v: String| v@),
            rrset_ttl: self.rrset_ttl,
        }
    }
}

/// The address of the record `record` of `domain` under the API root
/// `base`. The parts are joined as they are; nothing is escaped.
pub open spec fn record_url_text(base: Seq<char>, domain: Seq<char>, record: Seq<char>) -> Seq<
    char,
> {
    base + "/domains/"@ + domain + "/records/"@ + record
}

/// The value of the `Authorization` header for the key `token`.
pub open spec fn authorization_text(token: Seq<char>) -> Seq<char> {
    "Apikey "@ + token
}

/// The two headers that every request to the API carries.
pub open spec fn api_headers(token: Seq<char>) -> Seq<HeaderView> {
    seq![
        HeaderView { name: "Authorization"@, value: authorization_text(token) },
        HeaderView { name: "Content-Type"@, value: "application/json"@ },
    ]
}

/// The text that names the address record type.
pub open spec fn address_type() -> Seq<char> {
    "A"@
}

/// The records of a reply as the contracts see them.
pub open spec fn records_view(records: Seq<DnsRecord>) -> Seq<DnsRecordView> {
    records.map_values(|r: DnsRecord| r@)
}

/// The records of a reply, where its body held a list of them.
pub open spec fn decoded_view(records: Option<Vec<DnsRecord>>) -> Option<Seq<DnsRecordView>> {
    match records {
        Some(list) => Some(records_view(list@)),
        None => None,
    }
}

/// The outcome of a read as the contracts see it.
pub open spec fn ip_result_view(result: Result<Option<String>, Error>) -> Result<
    Option<Seq<char>>,
    Error,
> {
    match result {
        Ok(Some(ip)) => Ok(Some(ip@)),
        Ok(None) => Ok(None),
        Err(e) => Err(e),
    }
}

/// The one address that a list of records publishes. No record: none is
/// declared yet. One address record with one value: that value. Anything
/// else breaks what the provider is relied on for, and is an error: more
/// than one record whatever they hold, then a record of another type
/// whatever its values, then a number of values other than one.
pub open spec fn single_address(records: Seq<DnsRecordView>) -> Result<Option<Seq<char>>, Error> {
    if records.len() == 0 {
        Ok(None)
    } else if records.len() > 1 {
        Err(Error::AmbiguousRecord)
    } else if records[0].rrset_type != address_type() {
        Err(Error::WrongRecordType)
    } else if records[0].rrset_values.len() != 1 {
        Err(Error::MultipleValues)
    } else {
        Ok(Some(records[0].rrset_values[0]))
    }
}

/// The outcome of a read that was answered with `status` and a body that
/// decoded to `records`, or did not decode where `records` is `None`. The
/// status is judged first: under any status but 200 the body counts for
/// nothing. A 404 is no exception: the provider tells of a name without a
/// record by an empty list, and a 404 is a failure like any other.
pub open spec fn record_ip(status: u16, records: Option<Seq<DnsRecordView>>) -> Result<
    Option<Seq<char>>,
    Error,
> {
    if status != STATUS_OK {
        Err(Error::UnexpectedStatus { status })
    } else {
        match records {
            None => Err(Error::MalformedResponse),
            Some(list) => single_address(list),
        }
    }
}

/// The outcome of a write that was answered with `status`.
pub open spec fn upsert_outcome(status: u16) -> Result<(), Error> {
    if status == STATUS_CREATED {
        Ok(())
    } else {
        Err(Error::UnexpectedStatus { status })
    }
}

/// A read that was answered with 200 finds the record undeclared exactly
/// when the list of records is empty.
pub proof fn lemma_undeclared_iff_empty(status: u16, records: Seq<DnsRecordView>)
    requires
        status == STATUS_OK,
    ensures
        record_ip(status, Some(records)) == Ok::<Option<Seq<char>>, Error>(None)
            <==> records.len() == 0,
{
}

/// Two records or more are ambiguous, whatever they hold.
pub proof fn lemma_many_records_are_ambiguous(status: u16, records: Seq<DnsRecordView>)
    requires
        status == STATUS_OK,
        records.len() >= 2,
    ensures
        record_ip(status, Some(records)) == Err::<Option<Seq<char>>, Error>(
            Error::AmbiguousRecord,
        ),
{
}

/// A single record of another type than the address type is refused for
/// its type, whatever its values: also where it holds exactly one.
pub proof fn lemma_other_type_is_refused(status: u16, records: Seq<DnsRecordView>)
    requires
        status == STATUS_OK,
        records.len() == 1,
        records[0].rrset_type != address_type(),
    ensures
        record_ip(status, Some(records)) == Err::<Option<Seq<char>>, Error>(
            Error::WrongRecordType,
        ),
{
}

/// A single address record is refused unless it holds exactly one value.
pub proof fn lemma_value_count_is_checked(status: u16, records: Seq<DnsRecordView>)
    requires
        status == STATUS_OK,
        records.len() == 1,
        records[0].rrset_type == address_type(),
    ensures
        records[0].rrset_values.len() != 1 ==> record_ip(status, Some(records)) == Err::<
            Option<Seq<char>>,
            Error,
        >(Error::MultipleValues),
        records[0].rrset_values.len() == 1 ==> record_ip(status, Some(records)) == Ok::<
            Option<Seq<char>>,
            Error,
        >(Some(records[0].rrset_values[0])),
{
}

/// Under any status but 200 a read fails for the status, whatever the body
/// holds: an empty list does not read as an undeclared record then.
pub proof fn lemma_read_status_comes_first(status: u16, records: Option<Seq<DnsRecordView>>)
    requires
        status != STATUS_OK,
    ensures
        record_ip(status, records) == Err::<Option<Seq<char>>, Error>(
            Error::UnexpectedStatus { status },
        ),
{
}

/// The JSON string literal for `text`, quotes included, as `serde_json`
/// writes it.
pub uninterp spec fn json_string_text(text: Seq<char>) -> Seq<char>;

/// The body of a write, given the JSON string literal of the address: one
/// item, of the address type, with that one value and a time to live of 300
/// seconds.
pub open spec fn upsert_body_text(ip_literal: Seq<char>) -> Seq<char> {
    "{\"items\":[{\"rrset_type\":\"A\",\"rrset_values\":["@ + ip_literal
        + "],\"rrset_ttl\":300}]}"@
}

/// Formats `serde_json::Value::String` through the `Display` of
/// `serde_json::Value`, which writes compact JSON: here one string literal,
/// escaped as JSON asks. Trusted: that the literal depends on `text` alone;
/// nothing is claimed of what it holds.
#[verifier::external_body]
fn json_string(text: &str) -> (literal: String)
    ensures
        literal@ == json_string_text(text@),
{
    serde_json::Value::String(text.to_owned()).to_string()
}

/// The body of a write around `ip_literal`, the JSON string literal of the
/// address to publish.
pub fn upsert_body_with(ip_literal: &str) -> (body: String)
    ensures
        body@ == upsert_body_text(ip_literal@),
{
    let mut body = String::from_str("{\"items\":[{\"rrset_type\":\"A\",\"rrset_values\":[");
    body.append(ip_literal);
    body.append("],\"rrset_ttl\":300}]}");
    body
}

/// The body of a write that publishes `ip`.
pub fn upsert_body(ip: &str) -> (body: String)
    ensures
        body@ == upsert_body_text(json_string_text(ip@)),
{
    let literal = json_string(ip);
    upsert_body_with(literal.as_str())
}

/// Whether `rrset_type` names the address record type.
pub fn is_address_type(rrset_type: &str) -> (yes: bool)
    ensures
        yes == (rrset_type@ == address_type()),
{
    proof {
        reveal_strlit("A");
    }
    if rrset_type.unicode_len() != 1 {
        return false;
    }
    let yes = rrset_type.get_char(0) == 'A';
    proof {
        if yes {
            assert(rrset_type@ =~= address_type());
        }
    }
    yes
}

impl GandiClient {
    /// A client for the API rooted at `base_url`, authenticated by `token`.
    pub fn new(base_url: &str, token: &str) -> (client: GandiClient)
        ensures
            client.base_url@ == base_url@,
            client.token@ == token@,
    {
        GandiClient { base_url: String::from_str(base_url), token: String::from_str(token) }
    }

    /// The address of the record `record` of `domain`.
    pub fn record_url(&self, domain: &str, record: &str) -> (url: String)
        ensures
            url@ == record_url_text(self.base_url@, domain@, record@),
    {
        let mut url = self.base_url.clone();
        url.append("/domains/");
        url.append(domain);
        url.append("/records/");
        url.append(record);
        url
    }

    /// The headers of a request to the API: the key, then the content type.
    pub fn headers(&self) -> (headers: Vec<Header>)
        ensures
            headers@.map_values(|h: Header| h@) == api_headers(self.token@),
    {
        let mut value = String::from_str("Apikey ");
        value.append(self.token.as_str());
        let mut headers: Vec<Header> = Vec::new();
        headers.push(Header { name: String::from_str("Authorization"), value });
        headers.push(
            Header {
                name: String::from_str("Content-Type"),
                value: String::from_str("application/json"),
            },
        );
        assert(headers@.map_values(|h: Header| h@) =~= api_headers(self.token@));
        headers
    }

    /// The request that reads the record `record` of `domain`.
    pub fn get_record_request(&self, domain: &str, record: &str) -> (request: HttpRequest)
        ensures
            request@ == (HttpRequestView {
                method: Method::Get,
                url: record_url_text(self.base_url@, domain@, record@),
                headers: api_headers(self.token@),
                body: None,
            }),
    {
        HttpRequest {
            method: Method::Get,
            url: self.record_url(domain, record),
            headers: self.headers(),
            body: None,
        }
    }

    /// The address that the record holds, from the reply to
    /// `get_record_request`: its status and, where its body is a list of
    /// records, that list. `Ok(None)` says that the record is not declared.
    pub fn get_record_ip(&self, status: u16, records: Option<Vec<DnsRecord>>) -> (result: Result<
        Option<String>,
        Error,
    >)
        ensures
            ip_result_view(result) == record_ip(status, decoded_view(records)),
    {
        if status != STATUS_OK {
            return Err(Error::UnexpectedStatus { status });
        }
        let mut list = match records {
            Some(list) => list,
            None => {
                return Err(Error::MalformedResponse);
            },
        };
        if list.len() == 0 {
            return Ok(None);
        }
        if list.len() != 1 {
            return Err(Error::AmbiguousRecord);
        }
        let record = list.remove(0);
        if !is_address_type(record.rrset_type.as_str()) {
            return Err(Error::WrongRecordType);
        }
        let mut values = record.rrset_values;
        if values.len() != 1 {
            return Err(Error::MultipleValues);
        }
        Ok(Some(values.remove(0)))
    }

    /// The request that declares the record `record` of `domain` with `ip`
    /// as its one value. The provider replaces whatever the name held, so
    /// the same request creates the record and updates it.
    pub fn upsert_request(&self, domain: &str, record: &str, ip: &str) -> (request: HttpRequest)
        ensures
            request@ == (HttpRequestView {
                method: Method::Put,
                url: record_url_text(self.base_url@, domain@, record@),
                headers: api_headers(self.token@),
                body: Some(upsert_body_text(json_string_text(ip@))),
            }),
    {
        HttpRequest {
            method: Method::Put,
            url: self.record_url(domain, record),
            headers: self.headers(),
            body: Some(upsert_body(ip)),
        }
    }

    /// Whether the write took effect, from the status of the reply to
    /// `upsert_request`.
    pub fn upsert_record(&self, status: u16) -> (result: Result<(), Error>)
        ensures
            result == upsert_outcome(status),
    {
        if status == STATUS_CREATED {
            Ok(())
        } else {
            Err(Error::UnexpectedStatus { status })
        }
    }
}

} // verus!
