use vstd::prelude::*;

use crate::record::{records_view, Record, RecordModel};

verus! {

/// Consecutive units of `n` rows each, in order: every unit but the last
/// holds exactly `n` rows, and the last holds the remainder, which is empty
/// exactly when the total is a positive multiple of `n` or zero.
pub open spec fn chunks_of(s: Seq<RecordModel>, n: int) -> Seq<Seq<RecordModel>>
    recommends
        n >= 1,
    decreases s.len(),
{
    if s.len() < n || n < 1 {
        seq![s]
    } else {
        seq![s.take(n)] + chunks_of(s.skip(n), n)
    }
}

/// Mathematical image of a unit list.
pub open spec fn units_view(us: Seq<Vec<Record>>) -> Seq<Seq<RecordModel>> {
    us.map_values(|u: Vec<Record>| records_view(u@))
}

/// With a bound of `n` and exactly `n` rows in all, chunking yields one
/// completed unit of `n` rows followed by one final empty unit: the bound is
/// never exceeded, and the rows are not folded into a single unit either.
pub proof fn lemma_chunk_exact_fill(s: Seq<RecordModel>, n: int)
    requires
        n >= 1,
        s.len() == n,
    ensures
        chunks_of(s, n) == seq![s, Seq::<RecordModel>::empty()],
{
    assert(s.take(n) =~= s);
    assert(s.skip(n) =~= Seq::<RecordModel>::empty());
    assert(chunks_of(s.skip(n), n) == seq![s.skip(n)]);
    assert(chunks_of(s, n) == seq![s.take(n)] + chunks_of(s.skip(n), n));
    assert(chunks_of(s, n) =~= seq![s, Seq::<RecordModel>::empty()]);
}

/// Groups rows into bounded units, in arrival order: `push` hands a finished
/// unit back exactly when the row it accepted filled the unit to the bound,
/// and `finish` hands back whatever remains, even when that is empty.
pub struct Chunker {
    max_rows: usize,
    pending: Vec<Record>,
}

impl Chunker {
    /// The configured most rows one unit may hold.
    pub closed spec fn bound(&self) -> int {
        self.max_rows as int
    }

    /// The rows accepted and not yet handed back.
    pub closed spec fn buffered(&self) -> Seq<RecordModel> {
        records_view(self.pending@)
    }

    /// A live chunker always has room for at least one more row.
    pub open spec fn wf(&self) -> bool {
        &&& self.buffered().len() < self.bound()
        &&& self.bound() >= 1
    }

    pub fn new(max_rows: usize) -> (c: Chunker)
        requires
            max_rows >= 1,
        ensures
            c.wf(),
            c.bound() == max_rows,
            c.buffered() == Seq::<RecordModel>::empty(),
    {
        let c = Chunker { max_rows, pending: Vec::new() };
        proof {
            assert(records_view(c.pending@) =~= Seq::<RecordModel>::empty());
        }
        c
    }

    /// Accepts one row; hands the current unit back exactly when this row
    /// fills it to the bound.
    pub fn push(&mut self, rec: Record) -> (flushed: Option<Vec<Record>>)
        requires
            old(self).wf(),
        ensures
            final(self).wf(),
            final(self).bound() == old(self).bound(),
            old(self).buffered().len() + 1 == old(self).bound() ==> flushed is Some
                && records_view(flushed->0@) == old(self).buffered().push(rec@)
                && final(self).buffered() == Seq::<RecordModel>::empty(),
            old(self).buffered().len() + 1 < old(self).bound() ==> flushed is None
                && final(self).buffered() == old(self).buffered().push(rec@),
    {
        let ghost pend0 = self.pending@;
        self.pending.push(rec);
        proof {
            crate::record::lemma_records_view_push(pend0, rec);
        }
        if self.pending.len() == self.max_rows {
            let mut unit: Vec<Record> = Vec::new();
            core::mem::swap(&mut unit, &mut self.pending);
            proof {
                assert(records_view(self.pending@) =~= Seq::<RecordModel>::empty());
            }
            Some(unit)
        } else {
            None
        }
    }

    /// Hands back the remaining unit, even when it is empty.
    pub fn finish(self) -> (unit: Vec<Record>)
        ensures
            records_view(unit@) == self.buffered(),
    {
        self.pending
    }
}

/// Groups all rows at once: the units are exactly `chunks_of` the rows under
/// the bound, so their concatenation is the rows in their original order,
/// every unit but the last holds exactly `max_rows` rows, and the last unit
/// holds the remainder, empty when the total is a multiple of the bound.
pub fn plan_units(records: &Vec<Record>, max_rows: usize) -> (units: Vec<Vec<Record>>)
    requires
        max_rows >= 1,
    ensures
        units_view(units@) == chunks_of(records_view(records@), max_rows as int),
{
    let ghost all = records_view(records@);
    let ghost n = max_rows as int;
    let mut out: Vec<Vec<Record>> = Vec::new();
    let mut ch = Chunker::new(max_rows);
    let total: usize = records.len();
    let mut k: usize = 0;
    proof {
        assert(units_view(out@) =~= Seq::<Seq<RecordModel>>::empty());
        assert(all.skip(0) =~= all);
    }
    while k < total
        invariant
            0 <= k <= total,
            total == all.len(),
            total == records@.len(),
            all == records_view(records@),
            ch.wf(),
            ch.bound() == max_rows as int,
            n == max_rows as int,
            chunks_of(all, n) == units_view(out@) + chunks_of(ch.buffered() + all.skip(k as int), n),
        decreases total - k,
    {
        let ghost buf0 = ch.buffered();
        let ghost out0 = out@;
        let rec = records[k].clone();
        proof {
            assert(rec@ == all[k as int]);
        }
        let flushed = ch.push(rec);
        proof {
            assert(all.skip(k as int)[0] == all[k as int]);
            assert(buf0 + all.skip(k as int) == (buf0.push(rec@)) + all.skip(k as int + 1)) by {
                assert(buf0 + all.skip(k as int) =~= (buf0.push(rec@)) + all.skip(k as int + 1));
            }
        }
        match flushed {
            Some(unit) => {
                proof {
                    let s = buf0.push(rec@) + all.skip(k as int + 1);
                    assert(s.len() >= n);
                    assert(s.take(n) =~= buf0.push(rec@));
                    assert(s.skip(n) =~= all.skip(k as int + 1));
                    assert(chunks_of(s, n) == seq![buf0.push(rec@)] + chunks_of(
                        all.skip(k as int + 1),
                        n,
                    ));
                }
                out.push(unit);
                proof {
                    assert(units_view(out@) =~= units_view(out0).push(records_view(unit@)));
                    assert(units_view(out0) + seq![buf0.push(rec@)] =~= units_view(out@));
                    assert(units_view(out@) + chunks_of(ch.buffered() + all.skip(k as int + 1), n)
                        =~= units_view(out0) + chunks_of(buf0.push(rec@) + all.skip(k as int + 1), n)) by {
                        assert(ch.buffered() + all.skip(k as int + 1) =~= all.skip(k as int + 1));
                    }
                }
            },
            None => {
                proof {
                    assert(ch.buffered() + all.skip(k as int + 1) =~= buf0.push(rec@) + all.skip(
                        k as int + 1,
                    ));
                }
            },
        }
        k = k + 1;
    }
    proof {
        assert(ch.buffered() + all.skip(total as int) =~= ch.buffered());
        assert(chunks_of(ch.buffered(), n) == seq![ch.buffered()]);
    }
    let last = ch.finish();
    let ghost outb = out@;
    out.push(last);
    proof {
        assert(units_view(out@) =~= units_view(outb).push(records_view(last@)));
        assert(units_view(outb) + seq![records_view(last@)] =~= units_view(out@));
    }
    out
}

} // verus!
