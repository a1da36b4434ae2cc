//! The requests that go to the DNS provider, and the other places that a run
//! turns to.

use vstd::prelude::*;
use vstd::string::*;

verus! {

/// A request to the provider's API: where it goes and the two headers that
/// every request carries.
#[derive(Debug, PartialEq, Eq)]
pub struct Request {
    pub url: String,
    pub authorization: String,
    pub content_type: String,
}

/// What a [`Request`] holds.
pub struct RequestView {
    pub url: Seq<char>,
    pub authorization: Seq<char>,
    pub content_type: Seq<char>,
}

impl View for Request {
    type V = RequestView;

    open spec fn view(&self) -> RequestView {
        RequestView {
            url: self.url@,
            authorization: self.authorization@,
            content_type: self.content_type@,
        }
    }
}

/// The name of the environment variable that holds the credential.
pub open spec fn credential_variable() -> Seq<char> {
    "CLOUDFLARE_API_KEY"@
}

/// The address of the service that answers with the caller's public address.
pub open spec fn echo_url() -> Seq<char> {
    "https://api.ipify.org"@
}

/// What is handed to the resolver for `domain`: the name and a port.
pub open spec fn resolver_target(domain: Seq<char>) -> Seq<char> {
    domain + ":80"@
}

/// The address of the collection of zones.
pub open spec fn zones_url() -> Seq<char> {
    "https://api.cloudflare.com/client/v4/zones"@
}

/// The address of the collection of records of the zone `zone_id`.
pub open spec fn records_url(zone_id: Seq<char>) -> Seq<char> {
    zones_url() + "/"@ + zone_id + "/dns_records"@
}

/// The address of the record `record_id` of the zone `zone_id`.
pub open spec fn record_url(zone_id: Seq<char>, record_id: Seq<char>) -> Seq<char> {
    records_url(zone_id) + "/"@ + record_id
}

/// The value of the `Authorization` header for the credential `api_key`.
pub open spec fn bearer(api_key: Seq<char>) -> Seq<char> {
    "Bearer "@ + api_key
}

/// The value of the `Content-Type` header.
pub open spec fn json_type() -> Seq<char> {
    "application/json"@
}

/// The request to `url` under the credential `api_key`.
pub open spec fn request_to(url: Seq<char>, api_key: Seq<char>) -> RequestView {
    RequestView { url, authorization: bearer(api_key), content_type: json_type() }
}

/// The name of the environment variable that holds the credential.
pub fn credential_variable_name() -> (r: &'static str)
    ensures
        r@ == credential_variable(),
{
    "CLOUDFLARE_API_KEY"
}

/// The address of the address-echo service.
pub fn echo_address() -> (r: String)
    ensures
        r@ == echo_url(),
{
    String::from_str("https://api.ipify.org")
}

/// What to hand to the resolver for `domain`.
pub fn resolver_target_for(domain: &str) -> (r: String)
    ensures
        r@ == resolver_target(domain@),
{
    let mut out = String::from_str(domain);
    out.append(":80");
    out
}

fn authorized(url: String, api_key: &str) -> (r: Request)
    ensures
        r@ == request_to(url@, api_key@),
{
    let mut authorization = String::from_str("Bearer ");
    authorization.append(api_key);
    Request { url, authorization, content_type: String::from_str("application/json") }
}

/// The request that lists the zones.
pub fn zones_request(api_key: &str) -> (r: Request)
    ensures
        r@ == request_to(zones_url(), api_key@),
{
    authorized(String::from_str("https://api.cloudflare.com/client/v4/zones"), api_key)
}

/// The request that lists the records of the zone `zone_id`.
pub fn records_request(api_key: &str, zone_id: &str) -> (r: Request)
    ensures
        r@ == request_to(records_url(zone_id@), api_key@),
{
    let mut url = String::from_str("https://api.cloudflare.com/client/v4/zones");
    url.append("/");
    url.append(zone_id);
    url.append("/dns_records");
    authorized(url, api_key)
}

/// The request that changes the record `record_id` of the zone `zone_id`.
pub fn record_request(api_key: &str, zone_id: &str, record_id: &str) -> (r: Request)
    ensures
        r@ == request_to(record_url(zone_id@, record_id@), api_key@),
{
    let mut url = String::from_str("https://api.cloudflare.com/client/v4/zones");
    url.append("/");
    url.append(zone_id);
    url.append("/dns_records");
    url.append("/");
    url.append(record_id);
    authorized(url, api_key)
}

} // verus!
