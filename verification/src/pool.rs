//! A slot pool: elements are stored at the lowest free index of a growable
//! table, and a bitmap records which slots are occupied.

use vstd::prelude::*;
use bit_vec::BitVec;
use crate::bitvec::{bitvec_bits, bitvec_from_elem, bitvec_get, bitvec_set, bitvec_grow};

verus! {

/// Number of occupied slots in `s`.
pub open spec fn count_occupied<T>(s: Seq<Option<T>>) -> nat
    decreases s.len(),
{
    if s.len() == 0 {
        0
    } else {
        count_occupied(s.drop_last()) + if s.last() is Some { 1nat } else { 0nat }
    }
}

/// The number of slots the table adds when every slot is occupied: as many
/// as it has, or one when it has none.
pub open spec fn growth(n: nat) -> nat {
    if n == 0 { 1 } else { n }
}

/// The slots after the table has made room for one more element: when every
/// slot is occupied the table doubles (an empty table gets one slot), the
/// new slots being free.
pub open spec fn grown<T>(s: Seq<Option<T>>) -> Seq<Option<T>> {
    if count_occupied(s) == s.len() {
        s + Seq::new(growth(s.len()), |_i: int| None::<T>)
    } else {
        s
    }
}

/// `idx` is the lowest free slot of `s`.
pub open spec fn is_lowest_free<T>(s: Seq<Option<T>>, idx: int) -> bool {
    &&& 0 <= idx < s.len()
    &&& s[idx] is None
    &&& forall|j: int| 0 <= j < idx ==> #[trigger] s[j] is Some
}

/// `max_set` is exactly the highest occupied slot of `s`, or 0 when no slot
/// is occupied.
pub open spec fn max_is_top<T>(s: Seq<Option<T>>, max_set: int) -> bool {
    ||| (forall|j: int| 0 <= j < s.len() ==> #[trigger] s[j] is None) && max_set == 0
    ||| {
        &&& 0 <= max_set < s.len()
        &&& s[max_set] is Some
        &&& forall|j: int| max_set < j < s.len() ==> #[trigger] s[j] is None
    }
}

/// The first `n` slots described by an occupancy bitmap and the stored values.
spec fn slots_of<T>(bits: Seq<bool>, vals: Seq<T>, n: nat) -> Seq<Option<T>> {
    Seq::new(n, |i: int| if bits[i] { Some(vals[i]) } else { None::<T> })
}

/// A table of elements indexed by slot number.
pub struct Pool<T> where T: Default + Clone {
    /// which slots are occupied
    bitmap: BitVec,
    /// the slots themselves
    pool: Vec<T>,
    /// the number of occupied slots
    len: usize,
    /// the number of slots
    capacity: usize,
    /// the recorded highest occupied slot
    max_set: usize,
}

impl<T> View for Pool<T> where T: Default + Clone {
    type V = Seq<Option<T>>;

    /// Slot `i` holds `Some(x)` when it is occupied by `x`, `None` when free.
    closed spec fn view(&self) -> Seq<Option<T>> {
        slots_of(bitvec_bits(self.bitmap), self.pool@, self.capacity as nat)
    }
}

impl<T> Pool<T> where T: Default + Clone {
    /// The internal consistency of a pool.
    pub closed spec fn wf(&self) -> bool {
        &&& self.shaped()
        &&& self.len == count_occupied(self@)
        &&& max_is_top(self@, self.max_set as int)
    }

    /// The bitmap and the slots both have the table's capacity.
    closed spec fn shaped(&self) -> bool {
        &&& bitvec_bits(self.bitmap).len() == self.capacity
        &&& self.pool@.len() == self.capacity
    }

    /// The highest occupied slot, or 0 when no slot is occupied.
    pub closed spec fn spec_max_set(&self) -> nat {
        self.max_set as nat
    }

    /// Creates an empty pool with `capacity` free slots.
    pub fn with_capacity(capacity: usize) -> (p: Self)
        ensures
            p.wf(),
            p@ == Seq::new(capacity as nat, |_i: int| None::<T>),
            p.spec_max_set() == 0,
            max_is_top(p@, 0),
            count_occupied(p@) == 0,
    {
        let p = Pool {
            bitmap: bitvec_from_elem(capacity, false),
            pool: vec![T::default(); capacity],
            len: 0,
            capacity,
            max_set: 0,
        };
        proof {
            assert(p@ =~= Seq::new(capacity as nat, |_i: int| None::<T>));
            lemma_count_all_free(p@);
        }
        p
    }

    /// The number of occupied slots.
    pub fn len(&self) -> (l: usize)
        requires
            self.wf(),
        ensures
            l == count_occupied(self@),
    {
        self.len
    }

    /// The number of slots.
    pub fn capacity(&self) -> (c: usize)
        requires
            self.wf(),
        ensures
            c == self@.len(),
    {
        self.capacity
    }

    /// The highest occupied slot, or 0 when no slot is occupied.
    pub fn max_set(&self) -> (m: usize)
        ensures
            m == self.spec_max_set(),
            self.wf() ==> max_is_top(self@, m as int),
    {
        self.max_set
    }

    /// Whether no slot is occupied.
    pub fn is_empty(&self) -> (b: bool)
        requires
            self.wf(),
        ensures
            b == (count_occupied(self@) == 0),
    {
        self.len == 0
    }

    /// Whether slot `index` is occupied.
    fn is_set(&self, index: usize) -> (b: bool)
        requires
            self.shaped(),
        ensures
            b == (index < self@.len() && self@[index as int] is Some),
    {
        match bitvec_get(&self.bitmap, index) {
            Some(b) => b,
            None => false,
        }
    }

    /// The element in slot `index`, if that slot is occupied.
    pub fn get(&self, index: usize) -> (r: Option<&T>)
        requires
            self.wf(),
        ensures
            match r {
                Some(v) => index < self@.len() && self@[index as int] == Some(*v),
                None => !(index < self@.len() && self@[index as int] is Some),
            },
    {
        if self.is_set(index) {
            Some(&self.pool[index])
        } else {
            None
        }
    }

    /// A mutable reference to the element in slot `index`, if that slot is
    /// occupied; what is written through it becomes the slot's element.
    pub fn get_mut(&mut self, index: usize) -> (r: Option<&mut T>)
        requires
            old(self).wf(),
        ensures
            match r {
                Some(v) => {
                    &&& index < old(self)@.len()
                    &&& old(self)@[index as int] == Some(*v)
                    &&& final(self).wf()
                    &&& final(self)@ == old(self)@.update(index as int, Some(*final(v)))
                    &&& final(self).spec_max_set() == old(self).spec_max_set()
                },
                None => {
                    &&& !(index < old(self)@.len() && old(self)@[index as int] is Some)
                    &&& *final(self) == *old(self)
                },
            },
    {
        if self.is_set(index) {
            proof {
                assert forall|x: T|
                    #![trigger self.pool@.update(index as int, x)]
                    slots_of(bitvec_bits(self.bitmap), self.pool@.update(index as int, x), self.capacity as nat)
                        == self@.update(index as int, Some(x))
                    && count_occupied(self@.update(index as int, Some(x))) == count_occupied(self@)
                by {
                    assert(slots_of(bitvec_bits(self.bitmap), self.pool@.update(index as int, x), self.capacity as nat)
                        =~= self@.update(index as int, Some(x)));
                    lemma_count_update(self@, index as int, Some(x));
                }
            }
            Some(&mut self.pool[index])
        } else {
            None
        }
    }

    /// Inserts `element` in the lowest free slot and returns that slot. When
    /// every slot is occupied the table first doubles its capacity (an empty
    /// table grows to one slot).
    pub fn insert(&mut self, element: T) -> (r: Option<usize>)
        requires
            old(self).wf(),
            count_occupied(old(self)@) < old(self)@.len() || 2 * old(self)@.len() <= usize::MAX,
        ensures
            final(self).wf(),
            count_occupied(final(self)@) == count_occupied(old(self)@) + 1,
            match r {
                Some(idx) => {
                    &&& is_lowest_free(grown(old(self)@), idx as int)
                    &&& final(self)@ == grown(old(self)@).update(idx as int, Some(element))
                    &&& final(self).spec_max_set() == if idx > old(self).spec_max_set() {
                        idx as nat
                    } else {
                        old(self).spec_max_set()
                    }
                },
                None => false,
            },
    {
        proof {
            lemma_count_le_len(self@);
        }
        if self.len == self.capacity {
            let added: usize = if self.capacity == 0 { 1 } else { self.capacity };
            self.pool.resize(self.capacity + added, T::default());
            bitvec_grow(&mut self.bitmap, added, false);
            self.capacity = self.capacity + added;
            proof {
                assert(self@ =~= old(self)@ + Seq::new(growth(old(self)@.len()), |_i: int| None::<T>));
                lemma_count_append_free(old(self)@, growth(old(self)@.len()));
                lemma_max_is_top_extend(old(self)@, old(self).max_set as int, growth(old(self)@.len()));
            }
        }
        proof {
            assert(self@ == grown(old(self)@));
            lemma_count_le_len(self@);
        }
        let mut index: usize = 0;
        while index < self.capacity && self.is_set(index)
            invariant
                self.wf(),
                self@ == grown(old(self)@),
                self.max_set == old(self).max_set,
                count_occupied(self@) < self@.len(),
                index <= self.capacity,
                forall|j: int| 0 <= j < index ==> #[trigger] self@[j] is Some,
            decreases self.capacity - index,
        {
            index += 1;
        }
        proof {
            if index == self.capacity {
                lemma_count_all_occupied(self@);
            }
        }
        self.pool[index] = element;
        bitvec_set(&mut self.bitmap, index, true);
        proof {
            assert(self@ =~= grown(old(self)@).update(index as int, Some(element)));
            lemma_count_update(grown(old(self)@), index as int, Some(element));
            law_insert_keeps_max_exact(old(self)@, old(self).max_set as int, index as int, element);
        }
        self.len += 1;
        if index > self.max_set {
            self.max_set = index;
        }
        Some(index)
    }

    /// Frees slot `index`; returns whether it was occupied. The recorded
    /// highest slot then names the highest slot still occupied, or 0.
    pub fn remove(&mut self, index: usize) -> (r: bool)
        requires
            old(self).wf(),
        ensures
            final(self).wf(),
            r == (index < old(self)@.len() && old(self)@[index as int] is Some),
            r ==> count_occupied(final(self)@) + 1 == count_occupied(old(self)@),
            r ==> final(self)@ == old(self)@.update(index as int, None),
            !r ==> final(self)@ == old(self)@ && final(self).spec_max_set() == old(self).spec_max_set(),
            max_is_top(final(self)@, final(self).spec_max_set() as int),
            r ==> final(self).spec_max_set() == if index == old(self).spec_max_set() {
                top_below(old(self)@, index as int)
            } else {
                old(self).spec_max_set() as int
            },
    {
        if self.is_set(index) {
            bitvec_set(&mut self.bitmap, index, false);
            self.pool[index] = T::default();
            proof {
                assert(self@ =~= old(self)@.update(index as int, None));
                lemma_count_update(old(self)@, index as int, None);
            }
            self.len -= 1;
            if index == self.max_set {
                let ghost s = old(self)@;
                proof {
                    assert forall|k: int| index < k < self@.len() implies #[trigger] self@[k] is None by {
                        assert(s[k] is None);
                    }
                }
                self.max_set = 0;
                let mut i: usize = index;
                while i > 0
                    invariant_except_break
                        self.max_set == 0,
                        forall|k: int| i <= k < self@.len() ==> #[trigger] self@[k] is None,
                    invariant
                        self.len == count_occupied(self@),
                        self@ == s.update(index as int, None),
                        self.capacity == old(self).capacity,
                        self.shaped(),
                        index < self.capacity,
                        i <= index,
                    ensures
                        max_is_top(self@, self.max_set as int),
                    decreases i,
                {
                    i -= 1;
                    if self.is_set(i) {
                        self.max_set = i;
                        break;
                    }
                }
                proof {
                    law_remove_keeps_max_exact(s, index as int, index as int);
                    law_max_is_unique(self@, self.max_set as int, top_below(s, index as int));
                }
            } else {
                proof {
                    law_remove_keeps_max_exact(old(self)@, old(self).max_set as int, index as int);
                }
            }
            true
        } else {
            false
        }
    }
}


/// Inserting into the lowest free slot raises the number of occupied slots
/// by one, and the slot then reads back the inserted element.
pub proof fn law_insert_adds_one<T>(s: Seq<Option<T>>, idx: int, x: T)
    requires
        is_lowest_free(grown(s), idx),
    ensures
        count_occupied(grown(s).update(idx, Some(x))) == count_occupied(s) + 1,
        grown(s).update(idx, Some(x))[idx] == Some(x),
{
    lemma_count_update(grown(s), idx, Some(x));
    if count_occupied(s) == s.len() {
        lemma_count_append_free(s, growth(s.len()));
    }
}

/// Freeing an occupied slot lowers the number of occupied slots by one.
pub proof fn law_remove_subtracts_one<T>(s: Seq<Option<T>>, i: int)
    requires
        0 <= i < s.len(),
        s[i] is Some,
    ensures
        count_occupied(s.update(i, None)) + 1 == count_occupied(s),
{
    lemma_count_update(s, i, None);
}

/// Freeing the slot that an insertion just filled gives back the slots as
/// they were before the insertion (after any growth of the table).
pub proof fn law_remove_undoes_insert<T>(s: Seq<Option<T>>, idx: int, x: T)
    requires
        is_lowest_free(grown(s), idx),
    ensures
        grown(s).update(idx, Some(x)).update(idx, None) == grown(s),
{
    assert(grown(s).update(idx, Some(x)).update(idx, None) =~= grown(s));
}

/// A freed slot with every slot below it occupied is the one that the next
/// insertion fills.
pub proof fn law_freed_slot_is_reused<T>(s: Seq<Option<T>>, i: int)
    requires
        0 <= i < s.len(),
        s[i] is Some,
        forall|j: int| 0 <= j < i ==> #[trigger] s[j] is Some,
    ensures
        is_lowest_free(grown(s.update(i, None)), i),
{
    lemma_count_update(s, i, None);
    lemma_count_le_len(s);
    assert(grown(s.update(i, None)) == s.update(i, None));
}

/// Insertions keep the recorded highest slot exact: when it names the
/// highest occupied slot (or 0 with none) before an insertion, it does so
/// after it too.
pub proof fn law_insert_keeps_max_exact<T>(s: Seq<Option<T>>, max_set: int, idx: int, x: T)
    requires
        max_is_top(s, max_set),
        is_lowest_free(grown(s), idx),
    ensures
        max_is_top(
            grown(s).update(idx, Some(x)),
            if idx > max_set { idx } else { max_set },
        ),
{
    let g = grown(s);
    let t = g.update(idx, Some(x));
    assert forall|j: int| s.len() <= j < g.len() implies #[trigger] g[j] is None by {}
    assert forall|j: int| 0 <= j < s.len() implies #[trigger] g[j] == s[j] by {}
    if forall|j: int| 0 <= j < s.len() ==> #[trigger] s[j] is None {
        assert(g[0] is None);
        assert(idx == 0);
        assert forall|j: int| 0 < j < t.len() implies #[trigger] t[j] is None by {
            if j < s.len() {
                assert(s[j] is None);
            }
        }
    } else {
        if idx > max_set {
            if idx > max_set + 1 {
                assert(g[max_set + 1] is Some);
                if max_set + 1 < s.len() {
                    assert(s[max_set + 1] is None);
                }
            }
            assert forall|j: int| idx < j < t.len() implies #[trigger] t[j] is None by {
                if j < s.len() {
                    assert(s[j] is None);
                }
            }
        } else {
            assert(idx != max_set);
            assert forall|j: int| max_set < j < t.len() implies #[trigger] t[j] is None by {
                if j < s.len() {
                    assert(s[j] is None);
                }
            }
        }
    }
}

/// The highest occupied slot below `k`, or 0 when every slot below `k` is
/// free.
pub open spec fn top_below<T>(s: Seq<Option<T>>, k: int) -> int
    decreases k,
{
    if k <= 0 {
        0
    } else if s[k - 1] is Some {
        k - 1
    } else {
        top_below(s, k - 1)
    }
}

/// `top_below` is the highest occupied slot below `k`, or 0 with none.
proof fn lemma_top_below<T>(s: Seq<Option<T>>, k: int)
    requires
        0 <= k <= s.len(),
    ensures
        ({
            ||| (forall|j: int| 0 <= j < k ==> #[trigger] s[j] is None) && top_below(s, k) == 0
            ||| {
                &&& 0 <= top_below(s, k) < k
                &&& s[top_below(s, k)] is Some
                &&& forall|j: int| top_below(s, k) < j < k ==> #[trigger] s[j] is None
            }
        }),
    decreases k,
{
    if k > 0 && s[k - 1] is None {
        lemma_top_below(s, k - 1);
    }
}

/// The recorded highest slot names one slot only: the highest occupied
/// slot, or 0 when no slot is occupied.
pub proof fn law_max_is_unique<T>(s: Seq<Option<T>>, a: int, b: int)
    requires
        max_is_top(s, a),
        max_is_top(s, b),
    ensures
        a == b,
{
}

/// Removals keep the recorded highest slot exact: freeing a slot below it
/// leaves it as it was, and freeing the highest occupied slot moves it down
/// to the highest occupied slot below (or to 0 when none is left).
pub proof fn law_remove_keeps_max_exact<T>(s: Seq<Option<T>>, max_set: int, i: int)
    requires
        max_is_top(s, max_set),
        0 <= i < s.len(),
        s[i] is Some,
    ensures
        max_is_top(s.update(i, None), if i == max_set { top_below(s, i) } else { max_set }),
{
    if i == max_set {
        lemma_top_below(s, i);
        let t = s.update(i, None);
        assert forall|j: int| 0 <= j < i implies #[trigger] t[j] == s[j] by {}
    }
}

/// Adding free slots keeps the record exact.
proof fn lemma_max_is_top_extend<T>(s: Seq<Option<T>>, max_set: int, n: nat)
    requires
        max_is_top(s, max_set),
    ensures
        max_is_top(s + Seq::new(n, |_i: int| None::<T>), max_set),
{
    let t = s + Seq::new(n, |_i: int| None::<T>);
    assert forall|j: int| 0 <= j < s.len() implies #[trigger] t[j] == s[j] by {}
    assert forall|j: int| s.len() <= j < t.len() implies #[trigger] t[j] is None by {}
    if forall|j: int| 0 <= j < s.len() ==> #[trigger] s[j] is None {
        assert forall|j: int| 0 <= j < t.len() implies #[trigger] t[j] is None by {
            if j < s.len() {
                assert(s[j] is None);
            }
        }
    } else {
        assert forall|j: int| max_set < j < t.len() implies #[trigger] t[j] is None by {
            if j < s.len() {
                assert(s[j] is None);
            }
        }
    }
}

/// With no slot occupied, the count is 0.
proof fn lemma_count_all_free<T>(s: Seq<Option<T>>)
    requires
        forall|j: int| 0 <= j < s.len() ==> #[trigger] s[j] is None,
    ensures
        count_occupied(s) == 0,
    decreases s.len(),
{
    if s.len() > 0 {
        lemma_count_all_free(s.drop_last());
    }
}

/// Appending free slots leaves the count unchanged.
proof fn lemma_count_append_free<T>(s: Seq<Option<T>>, n: nat)
    ensures
        count_occupied(s + Seq::new(n, |_i: int| None::<T>)) == count_occupied(s),
    decreases n,
{
    let t = s + Seq::new(n, |_i: int| None::<T>);
    if n > 0 {
        assert(t.drop_last() =~= s + Seq::new((n - 1) as nat, |_i: int| None::<T>));
        lemma_count_append_free(s, (n - 1) as nat);
    } else {
        assert(t =~= s);
    }
}

/// The count never exceeds the number of slots.
proof fn lemma_count_le_len<T>(s: Seq<Option<T>>)
    ensures
        count_occupied(s) <= s.len(),
    decreases s.len(),
{
    if s.len() > 0 {
        lemma_count_le_len(s.drop_last());
    }
}

/// With every slot occupied, the count is the number of slots.
proof fn lemma_count_all_occupied<T>(s: Seq<Option<T>>)
    requires
        forall|j: int| 0 <= j < s.len() ==> #[trigger] s[j] is Some,
    ensures
        count_occupied(s) == s.len(),
    decreases s.len(),
{
    if s.len() > 0 {
        lemma_count_all_occupied(s.drop_last());
    }
}

/// Overwriting slot `i` changes the count by what leaves and what enters.
proof fn lemma_count_update<T>(s: Seq<Option<T>>, i: int, v: Option<T>)
    requires
        0 <= i < s.len(),
    ensures
        count_occupied(s.update(i, v)) + (if s[i] is Some { 1int } else { 0int })
            == count_occupied(s) + (if v is Some { 1int } else { 0int }),
    decreases s.len(),
{
    let t = s.update(i, v);
    if i == s.len() - 1 {
        assert(t.drop_last() =~= s.drop_last());
    } else {
        assert(t.drop_last() =~= s.drop_last().update(i, v));
        lemma_count_update(s.drop_last(), i, v);
    }
}

} // verus!
