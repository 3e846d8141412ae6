//! The zone's REST endpoint: the collection URL, the per-record URL and
//! the authorization header value, derived from the zone context.

use vstd::prelude::*;
use vstd::string::StringExecFns;

verus! {

/// The URL of the zone's record collection.
pub open spec fn collection_endpoint_spec(zone: Seq<char>) -> Seq<char> {
    "https://api.cloudflare.com/client/v4/zones/"@ + zone + "/dns_records"@
}

/// The URL of one record of the zone.
pub open spec fn record_endpoint_spec(zone: Seq<char>, id: Seq<char>) -> Seq<char> {
    collection_endpoint_spec(zone) + "/"@ + id
}

/// The value of the `Authorization` header carried by every call.
pub open spec fn auth_header_spec(token: Seq<char>) -> Seq<char> {
    "Bearer "@ + token
}

/// The zone context: the provider's zone identifier and the bearer token,
/// read once at startup and immutable for the rest of the run.
pub struct ZoneConfig {
    pub zone: String,
    pub token: String,
}

impl ZoneConfig {
    pub fn new(zone: String, token: String) -> (r: ZoneConfig)
        ensures
            r.zone@ == zone@,
            r.token@ == token@,
    {
        ZoneConfig { zone, token }
    }

    /// The URL that lists, and accepts new, records of this zone.
    pub fn collection_endpoint(&self) -> (r: String)
        ensures
            r@ == collection_endpoint_spec(self.zone@),
    {
        let mut r: String = "https://api.cloudflare.com/client/v4/zones/".to_owned();
        r.append(self.zone.as_str());
        r.append("/dns_records");
        proof {
            assert(r@ =~= collection_endpoint_spec(self.zone@));
        }
        r
    }

    /// The URL of the record with identifier `id` in this zone.
    pub fn record_endpoint(&self, id: &str) -> (r: String)
        ensures
            r@ == record_endpoint_spec(self.zone@, id@),
    {
        let mut r: String = self.collection_endpoint();
        r.append("/");
        r.append(id);
        proof {
            assert(r@ =~= record_endpoint_spec(self.zone@, id@));
        }
        r
    }

    /// The bearer-token `Authorization` header value for this zone.
    pub fn auth_header(&self) -> (r: String)
        ensures
            r@ == auth_header_spec(self.token@),
    {
        let mut r: String = "Bearer ".to_owned();
        r.append(self.token.as_str());
        r
    }
}

} // verus!
