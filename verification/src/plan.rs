//! The decisions of the `set` and `del` commands: which call to issue
//! against the zone's endpoint, computed from the fetched record list and
//! the command's arguments. The caller performs the calls; everything
//! decided here is proved.

use vstd::prelude::*;

use crate::record::Entry;
use crate::record::EntryView;
use crate::record::spec_find;
use crate::text::str_eq;
use crate::text::trim;
use crate::text::trim_spec;

verus! {

/// The destination value that asks for this machine's public IP address.
pub open spec fn public_ip_sentinel() -> Seq<char> {
    "this_machine_ip"@
}

/// How the `set` command obtains the record content: by querying the
/// public-IP echo service, or by using the destination argument verbatim.
pub enum DestPlan {
    QueryPublicIp,
    Literal { dest: String },
}

/// The mutation that the `set` command issues: replace the record with
/// the given identifier (a PUT to the record's URL), or create a new one
/// (a POST to the collection URL).
pub enum SetPlan {
    Update { record: Entry },
    Create { record: Entry },
}

/// The outcome of the `del` command: delete the record with the given
/// identifier (a DELETE on the record's URL), or nothing, because no
/// record bears the name.
pub enum DelPlan {
    Delete { id: String, name: String },
    NotFound,
}

/// Decides where the `set` command's content comes from: the public-IP
/// resolver is consulted exactly when `dest` is the sentinel value
/// `"this_machine_ip"`; every other destination is used verbatim.
pub fn resolve_dest(dest: &str) -> (r: DestPlan)
    ensures
        dest@ == public_ip_sentinel() ==> r is QueryPublicIp,
        dest@ != public_ip_sentinel() ==> (r matches DestPlan::Literal { dest: d } && d@ == dest@),
{
    if str_eq(dest, "this_machine_ip") {
        DestPlan::QueryPublicIp
    } else {
        DestPlan::Literal { dest: dest.to_owned() }
    }
}

/// The content obtained from the public-IP echo service: the response
/// body with surrounding whitespace stripped.
pub fn resolved_ip(body: &str) -> (r: String)
    ensures
        r@ == trim_spec(body@),
{
    trim(body).to_owned()
}

/// Plans the `set` command once the content is resolved. A name already
/// in the list leads to an update that keeps the existing record's id,
/// name and type and replaces only the content — the `rtype` argument is
/// ignored on that path. An absent name leads to a create with an empty
/// id, the given name and type, and the resolved content.
pub fn set_rec(records: &Vec<Entry>, name: &str, content: &str, rtype: &str) -> (r: SetPlan)
    ensures
        match spec_find(records.deep_view(), name@) {
            Some(e) => r matches SetPlan::Update { record } && record@ == (EntryView {
                id: e.id,
                name: e.name,
                rtype: e.rtype,
                content: content@,
            }),
            None => r matches SetPlan::Create { record } && record@ == (EntryView {
                id: Seq::<char>::empty(),
                name: name@,
                rtype: rtype@,
                content: content@,
            }),
        },
{
    match crate::record::find_rec(records, name) {
        Some(entry) => {
            let record = Entry {
                id: entry.id.clone(),
                name: entry.name.clone(),
                rtype: entry.rtype.clone(),
                content: content.to_owned(),
            };
            SetPlan::Update { record }
        },
        None => {
            let record = Entry {
                id: String::new(),
                name: name.to_owned(),
                rtype: rtype.to_owned(),
                content: content.to_owned(),
            };
            SetPlan::Create { record }
        },
    }
}

/// Plans the `del` command: a present name leads to exactly one delete
/// carrying that record's id; an absent name leads to none.
pub fn del_rec(records: &Vec<Entry>, name: &str) -> (r: DelPlan)
    ensures
        match spec_find(records.deep_view(), name@) {
            Some(e) => r matches DelPlan::Delete { id, name: rec_name } && id@ == e.id
                && rec_name@ == e.name,
            None => r is NotFound,
        },
{
    match crate::record::find_rec(records, name) {
        Some(entry) => DelPlan::Delete { id: entry.id.clone(), name: entry.name.clone() },
        None => DelPlan::NotFound,
    }
}

} // verus!
