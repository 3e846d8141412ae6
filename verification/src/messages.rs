//! The lines the command handlers print: success, error and progress
//! messages, each built exactly as stated.

use vstd::prelude::*;
use vstd::string::StringExecFns;

verus! {

/// Reported after a delete succeeded.
pub fn msg_deleted(name: &str) -> (r: String)
    ensures
        r@ == "Successfully deleted "@ + name@,
{
    let mut r: String = "Successfully deleted ".to_owned();
    r.append(name);
    r
}

/// Reported when the provider refused a delete.
pub fn msg_delete_error(name: &str) -> (r: String)
    ensures
        r@ == "Error deleting "@ + name@,
{
    let mut r: String = "Error deleting ".to_owned();
    r.append(name);
    r
}

/// Reported when `del` finds no record with the given name.
pub fn msg_no_record() -> (r: String)
    ensures
        r@ == "No such record exists"@,
{
    "No such record exists".to_owned()
}

/// Reported before `set` updates an existing record.
pub fn msg_update_intro(name: &str) -> (r: String)
    ensures
        r@ == name@ + " already exists, trying to update..."@,
{
    let mut r: String = name.to_owned();
    r.append(" already exists, trying to update...");
    r
}

/// Reported after an update succeeded.
pub fn msg_updated(name: &str, content: &str, rtype: &str) -> (r: String)
    ensures
        r@ == "Successfully Updated "@ + name@ + " with "@ + content@ + " (type: "@ + rtype@
            + ")"@,
{
    let mut r: String = "Successfully Updated ".to_owned();
    r.append(name);
    r.append(" with ");
    r.append(content);
    r.append(" (type: ");
    r.append(rtype);
    r.append(")");
    proof {
        assert(r@ =~= "Successfully Updated "@ + name@ + " with "@ + content@ + " (type: "@
            + rtype@ + ")"@);
    }
    r
}

/// Reported when the provider refused an update or a create.
pub fn msg_update_error(name: &str) -> (r: String)
    ensures
        r@ == "Error updating "@ + name@,
{
    let mut r: String = "Error updating ".to_owned();
    r.append(name);
    r
}

/// Reported before `set` creates a record for a name that has none.
pub fn msg_create_intro() -> (r: String)
    ensures
        r@ == "No such record exists, trying to create new..."@,
{
    "No such record exists, trying to create new...".to_owned()
}

/// Reported after a create succeeded.
pub fn msg_created(name: &str, content: &str) -> (r: String)
    ensures
        r@ == "Successfully Updated "@ + name@ + " to point to "@ + content@,
{
    let mut r: String = "Successfully Updated ".to_owned();
    r.append(name);
    r.append(" to point to ");
    r.append(content);
    proof {
        assert(r@ =~= "Successfully Updated "@ + name@ + " to point to "@ + content@);
    }
    r
}

} // verus!
