//! Facts that relate the reading of a directory to its two renderings.
use vstd::prelude::*;

use crate::entry::{listing_view, yielded, DirChild, EntryView};
use crate::json::{json_output, objects_json};
use crate::table::{header_row, table_cells};

verus! {

/// A directory without children gives no record, the JSON array `[]`, and a
/// table of the header row alone.
pub proof fn lemma_empty_directory(steps: Vec<Option<DirChild>>)
    requires
        steps@.len() == 0,
    ensures
        listing_view(Some(steps)) == Seq::<EntryView>::empty(),
        json_output(listing_view(Some(steps))) == "[]"@,
        table_cells(listing_view(Some(steps))) == seq![header_row()],
{
    let es = listing_view(Some(steps));
    assert(es =~= Seq::empty());
    assert(objects_json(es) == Some(Seq::<char>::empty()));
    reveal_strlit("[");
    reveal_strlit("]");
    reveal_strlit("[]");
    assert("["@ + Seq::<char>::empty() + "]"@ =~= "[]"@);
    assert(table_cells(es) =~= seq![header_row()]);
}

/// Each child that the iteration yields gives exactly one record, whatever
/// became of its metadata: with every step yielded, the records are as many
/// as the children.
pub proof fn lemma_one_record_per_child(steps: Vec<Option<DirChild>>)
    requires
        forall|i: int| 0 <= i < steps@.len() ==> (#[trigger] steps@[i]) is Some,
    ensures
        listing_view(Some(steps)).len() == steps@.len(),
{
    lemma_yielded_all(steps@);
}

proof fn lemma_yielded_all(s: Seq<Option<DirChild>>)
    requires
        forall|i: int| 0 <= i < s.len() ==> (#[trigger] s[i]) is Some,
    ensures
        yielded(s).len() == s.len(),
    decreases s.len(),
{
    if s.len() > 0 {
        let p = s.drop_last();
        assert forall|i: int| 0 <= i < p.len() implies (#[trigger] p[i]) is Some by {
            assert(p[i] == s[i]);
        }
        lemma_yielded_all(p);
        assert(s.last() == s[s.len() - 1]);
    }
}

} // verus!
