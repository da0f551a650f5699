//! Where the requests of a run go.

use vstd::prelude::*;
use vstd::string::*;

verus! {

/// The address of the echo service that reports the caller's public address.
pub open spec fn discovery_url_text() -> Seq<char> {
    "https://httpbin.org/ip"@
}

/// The address of the records of a zone.
pub open spec fn records_url_text(zone_id: Seq<char>) -> Seq<char> {
    "https://api.cloudflare.com/client/v4/zones/"@ + zone_id + "/dns_records"@
}

/// The address of one record of a zone.
pub open spec fn record_url_text(zone_id: Seq<char>, record_id: Seq<char>) -> Seq<char> {
    records_url_text(zone_id) + "/"@ + record_id
}

/// The address of the echo service that reports the caller's public address.
pub fn discovery_url() -> (url: String)
    ensures
        url@ == discovery_url_text(),
{
    String::from_str("https://httpbin.org/ip")
}

/// The address at which the provider lists the records of a zone.
pub fn records_url(zone_id: &str) -> (url: String)
    ensures
        url@ == records_url_text(zone_id@),
{
    String::from_str("https://api.cloudflare.com/client/v4/zones/").concat(zone_id).concat("/dns_records")
}

/// The address at which the provider takes the rewrite of one record.
pub fn record_url(zone_id: &str, record_id: &str) -> (url: String)
    ensures
        url@ == record_url_text(zone_id@, record_id@),
{
    records_url(zone_id).concat("/").concat(record_id)
}

} // verus!
