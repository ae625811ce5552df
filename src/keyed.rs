//! Collections of records keyed by id: lookup and update-or-insert.

use vstd::prelude::*;

verus! {

/// A stored record, identified by a 128-bit id.
pub trait Record {
    /// The record's id.
    spec fn spec_id(&self) -> u128;

    /// The record's id.
    fn record_id(&self) -> (r: u128)
        ensures
            r == self.spec_id(),
    ;
}

/// Whether some record of `s` has the id `id`.
pub open spec fn holds_id<T: Record>(s: Seq<T>, id: u128) -> bool {
    exists|i: int| 0 <= i < s.len() && #[trigger] s[i].spec_id() == id
}

/// Whether no two records of `s` share an id.
pub open spec fn ids_unique<T: Record>(s: Seq<T>) -> bool {
    forall|i: int, j: int|
        0 <= i < s.len() && 0 <= j < s.len() && i != j ==> #[trigger] s[i].spec_id()
            != #[trigger] s[j].spec_id()
}

/// Whether `k` is the place of the first record of `s` with the id `id`.
pub open spec fn is_first_with_id<T: Record>(s: Seq<T>, id: u128, k: int) -> bool {
    &&& 0 <= k < s.len()
    &&& s[k].spec_id() == id
    &&& forall|j: int| 0 <= j < k ==> #[trigger] s[j].spec_id() != id
}

/// The place of the first record of `s` with the id `id`, where there is one.
pub open spec fn index_of_id<T: Record>(s: Seq<T>, id: u128) -> int {
    choose|k: int| is_first_with_id(s, id, k)
}

/// `s` after committing `r`: the first record with `r`'s id replaced by `r`,
/// or `r` appended when no record has that id.
pub open spec fn upserted<T: Record>(s: Seq<T>, r: T) -> Seq<T> {
    if holds_id(s, r.spec_id()) {
        s.update(index_of_id(s, r.spec_id()), r)
    } else {
        s.push(r)
    }
}

/// The first place of an id is the one `index_of_id` names.
proof fn lemma_index_of_first<T: Record>(s: Seq<T>, id: u128, k: int)
    requires
        is_first_with_id(s, id, k),
    ensures
        index_of_id(s, id) == k,
{
    let c = index_of_id(s, id);
    assert(is_first_with_id(s, id, c));
    if c < k {
        assert(s[c].spec_id() != id);
    } else if c > k {
        assert(s[k].spec_id() != id);
    }
}

/// Where an id is held, `index_of_id` names its first place.
pub proof fn lemma_index_of_held<T: Record>(s: Seq<T>, id: u128)
    requires
        holds_id(s, id),
    ensures
        is_first_with_id(s, id, index_of_id(s, id)),
    decreases s.len(),
{
    let w = choose|i: int| 0 <= i < s.len() && #[trigger] s[i].spec_id() == id;
    if exists|j: int| 0 <= j < w && #[trigger] s[j].spec_id() == id {
        let v = choose|j: int| 0 <= j < w && #[trigger] s[j].spec_id() == id;
        assert(holds_id(s.subrange(0, w), id)) by {
            assert(s.subrange(0, w)[v].spec_id() == id);
        }
        lemma_index_of_held(s.subrange(0, w), id);
        let k = index_of_id(s.subrange(0, w), id);
        assert(is_first_with_id(s, id, k)) by {
            assert forall|j: int| 0 <= j < k implies #[trigger] s[j].spec_id() != id by {
                assert(s.subrange(0, w)[j] == s[j]);
            }
            assert(s.subrange(0, w)[k] == s[k]);
        }
        lemma_index_of_first(s, id, k);
    } else {
        lemma_index_of_first(s, id, w);
    }
}

/// Committing a record keeps every id that was there, adds the record's own,
/// and adds no other; where ids were unique they stay unique.
pub proof fn lemma_upserted<T: Record>(s: Seq<T>, r: T)
    ensures
        holds_id(s, r.spec_id()) ==> upserted(s, r).len() == s.len(),
        !holds_id(s, r.spec_id()) ==> upserted(s, r).len() == s.len() + 1,
        forall|x: u128|
            #[trigger] holds_id(upserted(s, r), x) == (holds_id(s, x) || x == r.spec_id()),
        ids_unique(s) ==> ids_unique(upserted(s, r)),
{
    let t = upserted(s, r);
    let id = r.spec_id();
    if holds_id(s, id) {
        lemma_index_of_held(s, id);
        let k = index_of_id(s, id);
        assert forall|x: u128| #[trigger] holds_id(t, x) == (holds_id(s, x) || x == id) by {
            if holds_id(s, x) {
                let i = choose|i: int| 0 <= i < s.len() && #[trigger] s[i].spec_id() == x;
                assert(t[i].spec_id() == x);
            }
            if x == id {
                assert(t[k].spec_id() == x);
            }
            if holds_id(t, x) {
                let i = choose|i: int| 0 <= i < t.len() && #[trigger] t[i].spec_id() == x;
                if i != k {
                    assert(s[i].spec_id() == x);
                }
            }
        }
        assert forall|i: int, j: int|
            ids_unique(s) && 0 <= i < t.len() && 0 <= j < t.len() && i != j implies #[trigger] t[i].spec_id()
            != #[trigger] t[j].spec_id() by {
            assert(s[i].spec_id() != s[j].spec_id());
        }
    } else {
        assert forall|x: u128| #[trigger] holds_id(t, x) == (holds_id(s, x) || x == id) by {
            if holds_id(s, x) {
                let i = choose|i: int| 0 <= i < s.len() && #[trigger] s[i].spec_id() == x;
                assert(t[i].spec_id() == x);
            }
            if x == id {
                assert(t[s.len() as int].spec_id() == x);
            }
            if holds_id(t, x) {
                let i = choose|i: int| 0 <= i < t.len() && #[trigger] t[i].spec_id() == x;
                if i < s.len() {
                    assert(s[i].spec_id() == x);
                }
            }
        }
        assert forall|i: int, j: int|
            ids_unique(s) && 0 <= i < t.len() && 0 <= j < t.len() && i != j implies #[trigger] t[i].spec_id()
            != #[trigger] t[j].spec_id() by {
            if i < s.len() && j < s.len() {
                assert(s[i].spec_id() != s[j].spec_id());
            } else if i < s.len() {
                assert(s[i].spec_id() != id);
            } else if j < s.len() {
                assert(s[j].spec_id() != id);
            }
        }
    }
}

/// Where ids are unique, committing a record whose id the record at `i` has
/// replaces exactly that record: same length, `r` at `i`, every other record
/// kept.
pub proof fn lemma_upserted_replaces<T: Record>(s: Seq<T>, r: T, i: int)
    requires
        ids_unique(s),
        0 <= i < s.len(),
        s[i].spec_id() == r.spec_id(),
    ensures
        upserted(s, r) == s.update(i, r),
        upserted(s, r).len() == s.len(),
        upserted(s, r)[i] == r,
        forall|j: int| 0 <= j < s.len() && j != i ==> #[trigger] upserted(s, r)[j] == s[j],
{
    assert(holds_id(s, r.spec_id()));
    lemma_index_of_held(s, r.spec_id());
    let k = index_of_id(s, r.spec_id());
    if k != i {
        assert(s[k].spec_id() != s[i].spec_id());
    }
}

/// Committing a record whose id no record has appends it.
pub proof fn lemma_upserted_appends<T: Record>(s: Seq<T>, r: T)
    requires
        !holds_id(s, r.spec_id()),
    ensures
        upserted(s, r) == s.push(r),
        upserted(s, r).len() == s.len() + 1,
{
}

/// The place of the first record of `items` with the id `id`, by a linear scan.
pub fn position_of<T: Record>(items: &Vec<T>, id: u128) -> (r: Option<usize>)
    ensures
        match r {
            Some(k) => is_first_with_id(items@, id, k as int) && k as int == index_of_id(items@, id),
            None => !holds_id(items@, id),
        },
{
    let mut i: usize = 0;
    while i < items.len()
        invariant
            0 <= i <= items.len(),
            forall|j: int| 0 <= j < i ==> #[trigger] items@[j].spec_id() != id,
        decreases items.len() - i,
    {
        if items[i].record_id() == id {
            proof {
                lemma_index_of_first(items@, id, i as int);
            }
            return Some(i);
        }
        i += 1;
    }
    None
}

/// Commits `item` into `items`: replaces the first record with its id, or
/// appends it when there is none. Returns whether a record was replaced.
pub fn upsert<T: Record>(items: &mut Vec<T>, item: T) -> (replaced: bool)
    ensures
        final(items)@ == upserted(old(items)@, item),
        replaced == holds_id(old(items)@, item.spec_id()),
{
    let id = item.record_id();
    match position_of(items, id) {
        Some(k) => {
            proof {
                assert(holds_id(items@, id)) by {
                    assert(items@[k as int].spec_id() == id);
                }
            }
            items.set(k, item);
            true
        },
        None => {
            items.push(item);
            false
        },
    }
}

} // verus!
