use vstd::prelude::*;

verus! {

/// A row that is ordered by an integer key.
pub trait Keyed {
    spec fn key_of(&self) -> int;

    fn key(&self) -> (r: i64)
        ensures
            r as int == self.key_of(),
    ;
}

/// The keys never increase along the sequence.
pub open spec fn descending<T: Keyed>(s: Seq<T>) -> bool {
    forall|i: int, j: int| 0 <= i < j < s.len() ==> s[i].key_of() >= s[j].key_of()
}

/// Orders rows by key, largest first, by insertion.
pub fn sort_descending<T: Keyed>(rows: Vec<T>) -> (r: Vec<T>)
    ensures
        r@.to_multiset() == rows@.to_multiset(),
        descending(r@),
{
    let ghost all = rows@;
    let mut rest = rows;
    let mut out: Vec<T> = Vec::new();
    assert(out@ =~= all.subrange(all.len() as int, all.len() as int));
    while rest.len() > 0
        invariant
            rest.len() <= all.len(),
            rest@ == all.subrange(0, rest.len() as int),
            out@.to_multiset() == all.subrange(rest.len() as int, all.len() as int).to_multiset(),
            descending(out@),
        decreases rest.len(),
    {
        let ghost before = rest@;
        let row = rest.pop().unwrap();
        let row_key = row.key();
        let mut pos: usize = 0;
        while pos < out.len() && out[pos].key() >= row_key
            invariant
                0 <= pos <= out.len(),
                row_key as int == row.key_of(),
                forall|k: int| 0 <= k < pos ==> out@[k].key_of() >= row.key_of(),
            decreases out.len() - pos,
        {
            pos = pos + 1;
        }
        let ghost shorter = out@;
        proof {
            let k = rest.len() as int;
            assert(before[k] == row);
            assert(rest@ =~= all.subrange(0, k));
            vstd::seq_lib::to_multiset_insert(shorter, pos as int, row);
            vstd::seq_lib::to_multiset_insert(all.subrange(k + 1, all.len() as int), 0, row);
            assert(all.subrange(k, all.len() as int) =~= all.subrange(k + 1, all.len() as int).insert(
                0,
                row,
            ));
        }
        out.insert(pos, row);
        proof {
            assert forall|i: int, j: int| 0 <= i < j < out@.len() implies out@[i].key_of()
                >= out@[j].key_of() by {
                if j > pos && i <= pos {
                    assert(shorter[j - 1].key_of() <= shorter[pos as int].key_of());
                }
            }
        }
    }
    assert(all.subrange(0, all.len() as int) =~= all);
    out
}

} // verus!
