//! The per-connection dynamic header table: an insertion-ordered,
//! size-bounded store of recently decoded name/value pairs, evicting
//! oldest-first, with a tri-state flag that records whether its contents can
//! still be trusted when the observer has not seen the whole compression
//! stream.

use vstd::prelude::*;

use crate::types::HTTP2FrameHeaderBlock;
use crate::types::HTTP2HeaderDecodeStatus;
use crate::types::HeaderBlockView;
use crate::types::HTTP2_MAX_TABLESIZE;
use crate::types::copy_bytes;

verus! {

/// Whether the dynamic table's contents can still be trusted.
///
/// `Clean`: every mutation has been observed. `Pending`: a size update
/// requested more room than the protocol ceiling allows, so the table is
/// tracked best-effort while it stays under the ceiling. `Overflowed`:
/// entries were lost and the contents are unreliable; nothing is stored any
/// more.
#[derive(Clone, Copy, PartialEq, Eq, Structural, Debug)]
pub enum HTTP2TableOverflow {
    Clean,
    Pending,
    Overflowed,
}

/// The dynamic header table. `table` holds the entries, newest at the tail;
/// `current_size` sums `32 + len(name) + len(value)` over every entry that
/// was decoded for the table, whether or not it could be stored; `max_size`
/// is the negotiated bound, assigned by the owning connection layer.
pub struct HTTP2DynTable {
    pub table: Vec<HTTP2FrameHeaderBlock>,
    pub current_size: usize,
    pub max_size: usize,
    pub overflow: HTTP2TableOverflow,
}

/// The mathematical value of a dynamic table.
#[verifier::ext_equal]
pub struct DynTableView {
    pub entries: Seq<HeaderBlockView>,
    pub current_size: int,
    pub max_size: int,
    pub overflow: HTTP2TableOverflow,
}

impl View for HTTP2DynTable {
    type V = DynTableView;

    open spec fn view(&self) -> DynTableView {
        DynTableView {
            entries: self.table.deep_view(),
            current_size: self.current_size as int,
            max_size: self.max_size as int,
            overflow: self.overflow,
        }
    }
}

/// The size an entry contributes to the table: 32 plus its name and value
/// lengths.
pub open spec fn spec_entry_cost(e: HeaderBlockView) -> int {
    32 + e.name.len() as int + e.value.len() as int
}

/// The summed cost of a sequence of entries.
pub open spec fn spec_table_cost(t: Seq<HeaderBlockView>) -> int
    decreases t.len(),
{
    if t.len() == 0 {
        0
    } else {
        spec_entry_cost(t[0]) + spec_table_cost(t.skip(1))
    }
}

pub proof fn lemma_table_cost_nonneg(t: Seq<HeaderBlockView>)
    ensures
        spec_table_cost(t) >= 0,
    decreases t.len(),
{
    if t.len() > 0 {
        lemma_table_cost_nonneg(t.skip(1));
    }
}

pub proof fn lemma_table_cost_push(t: Seq<HeaderBlockView>, e: HeaderBlockView)
    ensures
        spec_table_cost(t.push(e)) == spec_table_cost(t) + spec_entry_cost(e),
    decreases t.len(),
{
    if t.len() == 0 {
        assert(t.push(e).len() == 1);
        assert(t.push(e)[0] == e);
        assert(t.push(e).skip(1) =~= Seq::<HeaderBlockView>::empty());
        assert(spec_table_cost(t.push(e).skip(1)) == 0);
    } else {
        assert(t.push(e).skip(1) =~= t.skip(1).push(e));
        assert(t.push(e)[0] == t[0]);
        lemma_table_cost_push(t.skip(1), e);
    }
}

impl DynTableView {
    /// The accounting invariant: the summed cost of the stored entries never
    /// exceeds the tracked size (the tracked size may be larger, carrying
    /// the cost of entries that could not be stored).
    pub open spec fn wf(self) -> bool {
        &&& spec_table_cost(self.entries) <= self.current_size
        &&& 0 <= self.current_size <= usize::MAX
        &&& 0 <= self.max_size <= usize::MAX
    }
}

/// Eviction from the oldest end: while the tracked size exceeds `max` and
/// entries remain, drop the front entry and subtract its cost. Returns the
/// remaining entries and the final size.
pub open spec fn spec_evict(t: Seq<HeaderBlockView>, size: int, max: int) -> (Seq<HeaderBlockView>,
    int,
)
    decreases t.len(),
{
    if size > max && t.len() > 0 {
        spec_evict(t.skip(1), size - spec_entry_cost(t[0]), max)
    } else {
        (t, size)
    }
}

/// What eviction guarantees: the invariant is preserved, the size never
/// grows, the result is within `max` unless the table was emptied, and the
/// surviving entries are exactly a suffix of the input (oldest-first
/// removal).
pub proof fn lemma_evict_props(t: Seq<HeaderBlockView>, size: int, max: int)
    requires
        spec_table_cost(t) <= size,
    ensures
        ({
            let (t2, s2) = spec_evict(t, size, max);
            &&& spec_table_cost(t2) <= s2
            &&& s2 <= size
            &&& s2 <= max || t2.len() == 0
            &&& t2.len() <= t.len()
            &&& t2 =~= t.skip(t.len() - t2.len())
        }),
    decreases t.len(),
{
    if size > max && t.len() > 0 {
        lemma_table_cost_nonneg(t.skip(1));
        lemma_evict_props(t.skip(1), size - spec_entry_cost(t[0]), max);
        let (t2, s2) = spec_evict(t, size, max);
        assert(t.skip(1).skip(t.skip(1).len() - t2.len()) =~= t.skip(t.len() - t2.len()));
    } else {
        assert(t.skip(0) =~= t);
    }
}

/// Storing one freshly decoded (name, value) pair, per the table's rules:
/// the pair's cost is always added to the tracked size (saturating at the
/// machine limit); the entry is stored when the overflow state allows it;
/// then entries are evicted oldest-first until the tracked size is within
/// `max_size`.
pub open spec fn spec_add_entry(d: DynTableView, name: Seq<u8>, value: Seq<u8>) -> DynTableView {
    let cost = 32 + name.len() as int + value.len() as int;
    let sat = d.current_size + cost > usize::MAX;
    let size1: int = if sat {
        usize::MAX as int
    } else {
        d.current_size + cost
    };
    let e = HeaderBlockView {
        name,
        value,
        error: HTTP2HeaderDecodeStatus::HTTP2HeaderDecodeSuccess,
        sizeupdate: 0u64,
    };
    let push = match d.overflow {
        HTTP2TableOverflow::Clean => !sat,
        HTTP2TableOverflow::Pending => size1 <= HTTP2_MAX_TABLESIZE as int,
        HTTP2TableOverflow::Overflowed => false,
    };
    let entries1 = if push {
        d.entries.push(e)
    } else {
        d.entries
    };
    let overflow1 = if d.overflow == HTTP2TableOverflow::Pending && size1 > HTTP2_MAX_TABLESIZE as int && size1
        > d.max_size {
        HTTP2TableOverflow::Overflowed
    } else {
        d.overflow
    };
    let (entries2, size2) = spec_evict(entries1, size1, d.max_size);
    DynTableView { entries: entries2, current_size: size2, max_size: d.max_size, overflow: overflow1 }
}

/// Applying a decoded dynamic-table size update: when the requested size is
/// below the current `max_size`, entries are evicted down to the requested
/// size at once. The assignment of `max_size` itself is the owning
/// connection layer's responsibility, not this operation's.
pub open spec fn spec_apply_size_update(d: DynTableView, newmax: u64) -> DynTableView {
    if (newmax as int) < d.max_size {
        let (e2, s2) = spec_evict(d.entries, d.current_size, newmax as int);
        DynTableView {
            entries: e2,
            current_size: s2,
            max_size: d.max_size,
            overflow: d.overflow,
        }
    } else {
        d
    }
}

impl HTTP2DynTable {
    /// A fresh table: empty, zero size, the protocol's default 4096-byte
    /// bound, contents trusted.
    pub fn new() -> (r: HTTP2DynTable)
        ensures
            r@.entries.len() == 0,
            r@.current_size == 0,
            r@.max_size == 4096,
            r@.overflow == HTTP2TableOverflow::Clean,
            r@.wf(),
    {
        HTTP2DynTable {
            table: Vec::new(),
            current_size: 0,
            max_size: 4096,
            overflow: HTTP2TableOverflow::Clean,
        }
    }

    /// Evicts from the oldest end while the tracked size exceeds `max` and
    /// entries remain.
    fn evict_to(&mut self, max: u64)
        requires
            old(self)@.wf(),
        ensures
            ({
                let (e2, s2) = spec_evict(old(self)@.entries, old(self)@.current_size, max as int);
                &&& final(self)@.entries =~= e2
                &&& final(self)@.current_size == s2
            }),
            final(self)@.max_size == old(self)@.max_size,
            final(self)@.overflow == old(self)@.overflow,
            final(self)@.wf(),
    {
        let ghost e0 = self@.entries;
        let ghost s0 = self@.current_size;
        proof {
            assert(e0.skip(0) =~= e0);
        }
        let mut toremove: usize = 0;
        while (self.current_size as u64) > max && toremove < self.table.len()
            invariant
                0 <= toremove <= self.table.len(),
                self.table.deep_view() == e0,
                self@.max_size == old(self)@.max_size,
                self@.overflow == old(self)@.overflow,
                spec_table_cost(e0.skip(toremove as int)) <= self.current_size,
                spec_evict(e0, s0, max as int) == spec_evict(
                    e0.skip(toremove as int),
                    self.current_size as int,
                    max as int,
                ),
            decreases self.table.len() - toremove,
        {
            let ghost rest = e0.skip(toremove as int);
            proof {
                assert(rest.len() > 0);
                assert(rest[0] == e0[toremove as int]);
                lemma_table_cost_nonneg(rest.skip(1));
                assert(spec_table_cost(rest) == spec_entry_cost(rest[0]) + spec_table_cost(
                    rest.skip(1),
                ));
                assert(rest.skip(1) =~= e0.skip(toremove + 1));
            }
            let nlen = self.table[toremove].name.len();
            let vlen = self.table[toremove].value.len();
            let c: usize = 32 + nlen + vlen;
            self.current_size = self.current_size - c;
            toremove = toremove + 1;
        }
        let rest = self.table.split_off(toremove);
        self.table = rest;
        proof {
            assert(self.table.deep_view() =~= e0.skip(toremove as int));
        }
    }

    /// Stores one freshly decoded (name, value) pair and evicts down to the
    /// negotiated bound, exactly as [`spec_add_entry`] describes. A pair
    /// whose cost would push the tracked size past the machine's limit
    /// saturates the size and is not stored.
    pub fn add_entry(&mut self, name: &Vec<u8>, value: &Vec<u8>)
        requires
            old(self)@.wf(),
        ensures
            final(self)@ =~= spec_add_entry(old(self)@, name@, value@),
            final(self)@.wf(),
    {
        let ghost d0 = self@;
        let nlen = name.len();
        let vlen = value.len();
        let sat = !(nlen <= usize::MAX - 32 && vlen <= usize::MAX - 32 - nlen
            && self.current_size <= usize::MAX - 32 - nlen - vlen);
        let size1: usize = if sat {
            usize::MAX
        } else {
            self.current_size + 32 + nlen + vlen
        };
        let push = match self.overflow {
            HTTP2TableOverflow::Clean => !sat,
            HTTP2TableOverflow::Pending => size1 <= HTTP2_MAX_TABLESIZE as usize,
            HTTP2TableOverflow::Overflowed => false,
        };
        if push {
            let entry = HTTP2FrameHeaderBlock {
                name: copy_bytes(name),
                value: copy_bytes(value),
                error: HTTP2HeaderDecodeStatus::HTTP2HeaderDecodeSuccess,
                sizeupdate: 0,
            };
            let ghost e = entry@;
            proof {
                lemma_table_cost_push(d0.entries, e);
            }
            self.table.push(entry);
            proof {
                assert(self.table.deep_view() =~= d0.entries.push(e));
            }
        }
        if self.overflow == HTTP2TableOverflow::Pending && size1 > HTTP2_MAX_TABLESIZE as usize {
            if size1 > self.max_size {
                self.overflow = HTTP2TableOverflow::Overflowed;
            }
        }
        self.current_size = size1;
        proof {
            lemma_table_cost_nonneg(d0.entries);
        }
        let m = self.max_size;
        self.evict_to(m as u64);
    }

    /// Applies a decoded size update, evicting down to the requested size
    /// when it is below the current bound, exactly as
    /// [`spec_apply_size_update`] describes.
    pub fn apply_size_update(&mut self, newmax: u64)
        requires
            old(self)@.wf(),
        ensures
            final(self)@ =~= spec_apply_size_update(old(self)@, newmax),
            final(self)@.wf(),
    {
        if newmax < self.max_size as u64 {
            self.evict_to(newmax);
        }
    }
}

/// Inserting entries whose cumulative cost exceeds the negotiated bound
/// evicts oldest-first until the tracked size is back within the bound or
/// the table is empty; what survives is exactly a suffix of the entries that
/// were stored, and the outcome is a function of the prior state and the
/// inserted pair alone.
pub proof fn lemma_add_entry_evicts_to_bound(d: DynTableView, name: Seq<u8>, value: Seq<u8>)
    requires
        d.wf(),
    ensures
        ({
            let d2 = spec_add_entry(d, name, value);
            &&& d2.wf()
            &&& d2.max_size == d.max_size
            &&& (d2.current_size <= d.max_size || d2.entries.len() == 0)
        }),
{
    let cost = 32 + name.len() as int + value.len() as int;
    let sat = d.current_size + cost > usize::MAX;
    let size1: int = if sat {
        usize::MAX as int
    } else {
        d.current_size + cost
    };
    let e = HeaderBlockView {
        name,
        value,
        error: HTTP2HeaderDecodeStatus::HTTP2HeaderDecodeSuccess,
        sizeupdate: 0u64,
    };
    let push = match d.overflow {
        HTTP2TableOverflow::Clean => !sat,
        HTTP2TableOverflow::Pending => size1 <= HTTP2_MAX_TABLESIZE as int,
        HTTP2TableOverflow::Overflowed => false,
    };
    let entries1 = if push {
        d.entries.push(e)
    } else {
        d.entries
    };
    if push {
        lemma_table_cost_push(d.entries, e);
    }
    lemma_evict_props(entries1, size1, d.max_size);
    lemma_table_cost_nonneg(spec_evict(entries1, size1, d.max_size).0);
}

/// Folding a whole insertion sequence into a table, pair after pair.
pub open spec fn spec_add_all(d: DynTableView, pairs: Seq<(Seq<u8>, Seq<u8>)>) -> DynTableView
    decreases pairs.len(),
{
    if pairs.len() == 0 {
        d
    } else {
        spec_add_all(spec_add_entry(d, pairs[0].0, pairs[0].1), pairs.skip(1))
    }
}

/// Inserting any sequence of entries — in particular one whose cumulative
/// cost exceeds `max_size` — leaves the tracked size within `max_size`
/// unless the table was emptied, with `max_size` untouched; and the outcome
/// is a function of the starting state and the insertion sequence alone.
pub proof fn lemma_add_all_evicts_to_bound(d: DynTableView, pairs: Seq<(Seq<u8>, Seq<u8>)>)
    requires
        d.wf(),
        pairs.len() > 0,
    ensures
        spec_add_all(d, pairs).wf(),
        spec_add_all(d, pairs).max_size == d.max_size,
        spec_add_all(d, pairs).current_size <= d.max_size || spec_add_all(d, pairs).entries.len()
            == 0,
    decreases pairs.len(),
{
    lemma_add_entry_evicts_to_bound(d, pairs[0].0, pairs[0].1);
    if pairs.len() > 1 {
        lemma_add_all_evicts_to_bound(spec_add_entry(d, pairs[0].0, pairs[0].1), pairs.skip(1));
    }
}

/// The entries that survive an insertion are a suffix of the entries that
/// went into eviction: removal is strictly oldest-first.
pub proof fn lemma_add_entry_suffix(d: DynTableView, name: Seq<u8>, value: Seq<u8>)
    requires
        d.wf(),
    ensures
        ({
            let cost = 32 + name.len() as int + value.len() as int;
            let sat = d.current_size + cost > usize::MAX;
            let size1: int = if sat {
                usize::MAX as int
            } else {
                d.current_size + cost
            };
            let e = HeaderBlockView {
                name,
                value,
                error: HTTP2HeaderDecodeStatus::HTTP2HeaderDecodeSuccess,
                sizeupdate: 0u64,
            };
            let push = match d.overflow {
                HTTP2TableOverflow::Clean => !sat,
                HTTP2TableOverflow::Pending => size1 <= HTTP2_MAX_TABLESIZE as int,
                HTTP2TableOverflow::Overflowed => false,
            };
            let entries1 = if push {
                d.entries.push(e)
            } else {
                d.entries
            };
            let d2 = spec_add_entry(d, name, value);
            &&& d2.entries.len() <= entries1.len()
            &&& d2.entries =~= entries1.skip(entries1.len() - d2.entries.len())
        }),
{
    let cost = 32 + name.len() as int + value.len() as int;
    let sat = d.current_size + cost > usize::MAX;
    let size1: int = if sat {
        usize::MAX as int
    } else {
        d.current_size + cost
    };
    let e = HeaderBlockView {
        name,
        value,
        error: HTTP2HeaderDecodeStatus::HTTP2HeaderDecodeSuccess,
        sizeupdate: 0u64,
    };
    let push = match d.overflow {
        HTTP2TableOverflow::Clean => !sat,
        HTTP2TableOverflow::Pending => size1 <= HTTP2_MAX_TABLESIZE as int,
        HTTP2TableOverflow::Overflowed => false,
    };
    let entries1 = if push {
        d.entries.push(e)
    } else {
        d.entries
    };
    if push {
        lemma_table_cost_push(d.entries, e);
    }
    lemma_evict_props(entries1, size1, d.max_size);
}

} // verus!
