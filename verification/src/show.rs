//! The `show` command's output: one tab-delimited line per record kept
//! by the type filter, in the records' original order.

use vstd::prelude::*;
use vstd::string::StringExecFns;

use crate::record::Entry;
use crate::record::EntryView;
use crate::text::str_eq;

verus! {

/// The filter value that keeps every record.
pub open spec fn show_all_filter() -> Seq<char> {
    "all"@
}

/// Whether the filter `f` keeps the record `e`: every record is kept by
/// the filter `"all"`, otherwise exactly those whose type equals `f`.
pub open spec fn keeps(e: EntryView, f: Seq<char>) -> bool {
    f == show_all_filter() || e.rtype == f
}

/// The tab-delimited display line of one record:
/// type, name, content, id.
pub open spec fn line_of(e: EntryView) -> Seq<char> {
    e.rtype + "\t"@ + e.name + "\t"@ + e.content + "\t"@ + e.id
}

/// The whole output of `show`: the display lines of exactly the records
/// kept by `f`, in original order.
pub open spec fn show_lines_spec(rs: Seq<EntryView>, f: Seq<char>) -> Seq<Seq<char>> {
    rs.filter(|e: EntryView| keeps(e, f)).map_values(|e: EntryView| line_of(e))
}

proof fn lemma_show_lines_push(rs: Seq<EntryView>, f: Seq<char>, x: EntryView)
    ensures
        keeps(x, f) ==> show_lines_spec(rs.push(x), f) == show_lines_spec(rs, f).push(line_of(x)),
        !keeps(x, f) ==> show_lines_spec(rs.push(x), f) == show_lines_spec(rs, f),
{
    reveal(Seq::filter);
    assert(rs.push(x).drop_last() =~= rs);
    assert(rs.push(x).last() == x);
    if keeps(x, f) {
        assert(show_lines_spec(rs.push(x), f) =~= show_lines_spec(rs, f).push(line_of(x)));
    } else {
        assert(show_lines_spec(rs.push(x), f) =~= show_lines_spec(rs, f));
    }
}

/// With the filter `"all"`, `show` outputs every record, in the records'
/// original order: one display line per record, nothing dropped, nothing
/// reordered.
pub proof fn lemma_show_all_keeps_every_record(rs: Seq<EntryView>)
    ensures
        show_lines_spec(rs, show_all_filter()) == rs.map_values(|e: EntryView| line_of(e)),
    decreases rs.len(),
{
    if rs.len() == 0 {
        reveal(Seq::filter);
        assert(show_lines_spec(rs, show_all_filter()) =~= rs.map_values(
            |e: EntryView| line_of(e),
        ));
    } else {
        lemma_show_all_keeps_every_record(rs.drop_last());
        assert(rs =~= rs.drop_last().push(rs.last()));
        lemma_show_lines_push(rs.drop_last(), show_all_filter(), rs.last());
        assert(show_lines_spec(rs, show_all_filter()) =~= rs.map_values(
            |e: EntryView| line_of(e),
        ));
    }
}

/// With a filter other than `"all"`, `show` outputs exactly the records
/// whose type equals the filter, in their original order, and nothing
/// else.
pub proof fn lemma_show_outputs_exactly_matching(rs: Seq<EntryView>, f: Seq<char>)
    requires
        f != show_all_filter(),
    ensures
        show_lines_spec(rs, f) == rs.filter(|e: EntryView| e.rtype == f).map_values(
            |e: EntryView| line_of(e),
        ),
    decreases rs.len(),
{
    reveal(Seq::filter);
    if rs.len() == 0 {
        assert(show_lines_spec(rs, f) =~= rs.filter(|e: EntryView| e.rtype == f).map_values(
            |e: EntryView| line_of(e),
        ));
    } else {
        lemma_show_outputs_exactly_matching(rs.drop_last(), f);
        assert(rs =~= rs.drop_last().push(rs.last()));
        lemma_show_lines_push(rs.drop_last(), f, rs.last());
        assert(show_lines_spec(rs, f) =~= rs.filter(|e: EntryView| e.rtype == f).map_values(
            |e: EntryView| line_of(e),
        ));
    }
}

/// The display line of one record.
pub fn format_line(e: &Entry) -> (r: String)
    ensures
        r@ == line_of(e@),
{
    let mut r: String = e.rtype.clone();
    r.append("\t");
    r.append(e.name.as_str());
    r.append("\t");
    r.append(e.content.as_str());
    r.append("\t");
    r.append(e.id.as_str());
    proof {
        assert(r@ =~= line_of(e@));
    }
    r
}

/// The display lines of exactly those records that `filter` keeps, in
/// their original order; an empty output is a normal outcome.
pub fn show_rec(records: &Vec<Entry>, filter: &str) -> (lines: Vec<String>)
    ensures
        lines.deep_view() == show_lines_spec(records.deep_view(), filter@),
{
    let ghost rs = records.deep_view();
    let ghost f = filter@;
    let show_all: bool = str_eq(filter, "all");
    let n: usize = records.len();
    let mut lines: Vec<String> = Vec::new();
    let mut i: usize = 0;
    proof {
        reveal(Seq::filter);
        assert(rs.take(0) =~= Seq::<EntryView>::empty());
        assert(lines.deep_view() =~= show_lines_spec(rs.take(0), f));
    }
    while i < n
        invariant
            n == records.len(),
            i <= n,
            rs == records.deep_view(),
            rs.len() == n,
            f == filter@,
            show_all == (f == show_all_filter()),
            lines.deep_view() == show_lines_spec(rs.take(i as int), f),
        decreases n - i,
    {
        let ghost prev_lines = lines.deep_view();
        let e = &records[i];
        let kept: bool = show_all || str_eq(e.rtype.as_str(), filter);
        proof {
            assert(kept == keeps(e@, f));
        }
        if kept {
            let line = format_line(e);
            lines.push(line);
        }
        proof {
            let taken = rs.take(i as int);
            let taken1 = rs.take(i as int + 1);
            assert(taken1 =~= taken.push(e@));
            lemma_show_lines_push(taken, f, e@);
            assert(lines.deep_view() =~= show_lines_spec(taken1, f));
        }
        i += 1;
    }
    proof {
        assert(rs.take(n as int) =~= rs);
    }
    lines
}

} // verus!
