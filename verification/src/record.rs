//! The domain entity: one DNS record of the zone, and lookup by name.

use vstd::prelude::*;

use crate::text::str_eq;

verus! {

/// One DNS record as the zone's provider reports it: an opaque `id`
/// assigned by the provider (empty for a record that does not exist yet),
/// the hostname `name` the record answers for, the record type `rtype`
/// (`"A"`, `"CNAME"`, ...) and the record's value `content`.
#[derive(Clone, Debug)]
pub struct Entry {
    pub id: String,
    pub name: String,
    pub rtype: String,
    pub content: String,
}

/// The mathematical image of an [`Entry`]: its four fields as character
/// sequences.
pub struct EntryView {
    pub id: Seq<char>,
    pub name: Seq<char>,
    pub rtype: Seq<char>,
    pub content: Seq<char>,
}

impl View for Entry {
    type V = EntryView;

    open spec fn view(&self) -> EntryView {
        EntryView {
            id: self.id@,
            name: self.name@,
            rtype: self.rtype@,
            content: self.content@,
        }
    }
}

impl DeepView for Entry {
    type V = EntryView;

    open spec fn deep_view(&self) -> EntryView {
        self.view()
    }
}

/// The first record of `rs` whose name is exactly `name`, if any:
/// the model of [`find_rec`].
pub open spec fn spec_find(rs: Seq<EntryView>, name: Seq<char>) -> Option<EntryView>
    decreases rs.len(),
{
    if rs.len() == 0 {
        None
    } else if rs[0].name == name {
        Some(rs[0])
    } else {
        spec_find(rs.drop_first(), name)
    }
}

/// The first record (in list order) whose name equals `name` exactly,
/// case-sensitively; absence is a normal outcome, not an error.
pub fn find_rec<'a>(records: &'a Vec<Entry>, name: &str) -> (r: Option<&'a Entry>)
    ensures
        match r {
            Some(e) => spec_find(records.deep_view(), name@) == Some(e@),
            None => spec_find(records.deep_view(), name@) is None,
        },
{
    let ghost rs = records.deep_view();
    let n: usize = records.len();
    let mut i: usize = 0;
    proof {
        assert(rs.skip(0) =~= rs);
    }
    while i < n
        invariant
            n == records.len(),
            i <= n,
            rs == records.deep_view(),
            rs.len() == n,
            spec_find(rs, name@) == spec_find(rs.skip(i as int), name@),
        decreases n - i,
    {
        proof {
            assert(rs.skip(i as int)[0] == rs[i as int]);
        }
        if str_eq(records[i].name.as_str(), name) {
            return Some(&records[i]);
        }
        proof {
            assert(rs.skip(i as int).drop_first() =~= rs.skip(i as int + 1));
        }
        i += 1;
    }
    None
}

/// `spec_find` finds a record if and only if one with that name is in the
/// list; what it finds is the first such record, matched exactly and
/// case-sensitively.
pub proof fn lemma_find_first(rs: Seq<EntryView>, name: Seq<char>)
    ensures
        (spec_find(rs, name) is Some) <==> (exists|i: int|
            0 <= i < rs.len() && #[trigger] rs[i].name == name),
        spec_find(rs, name) matches Some(e) ==> exists|i: int|
            0 <= i < rs.len() && #[trigger] rs[i] == e && rs[i].name == name && (forall|j: int|
                0 <= j < i ==> #[trigger] rs[j].name != name),
    decreases rs.len(),
{
    if rs.len() == 0 {
    } else if rs[0].name == name {
        assert(rs[0].name == name);
    } else {
        lemma_find_first(rs.drop_first(), name);
        let tail = rs.drop_first();
        if spec_find(rs, name) is Some {
            let e = spec_find(rs, name).unwrap();
            let i = choose|i: int|
                0 <= i < tail.len() && #[trigger] tail[i] == e && tail[i].name == name && (forall|
                    j: int,
                |
                    0 <= j < i ==> #[trigger] tail[j].name != name);
            assert(rs[i + 1] == tail[i]);
            assert(forall|j: int| 0 <= j < i + 1 ==> #[trigger] rs[j].name != name) by {
                assert(forall|j: int| 1 <= j < i + 1 ==> rs[j] == tail[j - 1]);
            }
        } else {
            assert(forall|i: int| 0 <= i < tail.len() ==> rs[i + 1] == tail[i]);
            assert(forall|i: int| 0 <= i < rs.len() ==> #[trigger] rs[i].name != name) by {
                assert(forall|i: int| 1 <= i < rs.len() ==> rs[i] == tail[i - 1]);
            }
        }
    }
}

} // verus!
