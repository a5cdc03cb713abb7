//! The node registry: a keyed store of node records that lists in ascending
//! identity order.  `add` keeps the records sorted by identity and does not
//! deduplicate; duplicate prevention is the caller's responsibility through
//! the capacity and allocation workflow.  `delete` of an absent identity is a
//! no-op.

use crate::models::BeeData;
use vstd::prelude::*;

verus! {

/// Records in ascending identity order.
pub open spec fn sorted_by_id(s: Seq<BeeData>) -> bool {
    forall|i: int, j: int| 0 <= i < j < s.len() ==> s[i].id <= s[j].id
}

/// Some record in `s` carries identity `id`.
pub open spec fn has_id(s: Seq<BeeData>, id: int) -> bool {
    exists|j: int| 0 <= j < s.len() && s[j].id == id
}

/// The position where a record with identity `id` is inserted: just after
/// every record whose identity is at most `id`.
pub open spec fn insert_pos(s: Seq<BeeData>, id: u8) -> int
    decreases s.len(),
{
    if s.len() == 0 {
        0
    } else if s[0].id > id {
        0
    } else {
        1 + insert_pos(s.skip(1), id)
    }
}

/// The index of the first record with identity `id`, or -1 when none has it.
pub open spec fn first_match(s: Seq<BeeData>, id: u8) -> int
    decreases s.len(),
{
    if s.len() == 0 {
        -1
    } else if s[0].id == id {
        0
    } else if first_match(s.skip(1), id) < 0 {
        -1
    } else {
        1 + first_match(s.skip(1), id)
    }
}

/// What deletion leaves behind: the store unchanged when no record has the
/// identity, else the store without its first record with that identity.
pub open spec fn remove_first(s: Seq<BeeData>, id: u8) -> Seq<BeeData> {
    if first_match(s, id) < 0 {
        s
    } else {
        s.remove(first_match(s, id))
    }
}

/// The insertion position is in range, every record before it has an
/// identity at most `id`, and the record at it (if any) a greater one.
pub proof fn lemma_insert_pos_props(s: Seq<BeeData>, id: u8)
    ensures
        0 <= insert_pos(s, id) <= s.len(),
        forall|j: int| 0 <= j < insert_pos(s, id) ==> s[j].id <= id,
        insert_pos(s, id) < s.len() ==> s[insert_pos(s, id)].id > id,
    decreases s.len(),
{
    if s.len() == 0 {
    } else if s[0].id > id {
    } else {
        lemma_insert_pos_props(s.skip(1), id);
        assert forall|j: int| 0 <= j < insert_pos(s, id) implies s[j].id <= id by {
            if j > 0 {
                assert(s.skip(1)[j - 1] == s[j]);
            }
        }
    }
}

/// `first_match` is non-negative exactly when some record has the identity,
/// and then names the first such record.
pub proof fn lemma_first_match_props(s: Seq<BeeData>, id: u8)
    ensures
        first_match(s, id) >= 0 <==> has_id(s, id as int),
        first_match(s, id) >= 0 ==> first_match(s, id) < s.len() && s[first_match(s, id)].id == id
            && (forall|j: int| 0 <= j < first_match(s, id) ==> s[j].id != id),
    decreases s.len(),
{
    if s.len() == 0 {
    } else if s[0].id == id {
    } else {
        lemma_first_match_props(s.skip(1), id);
        if has_id(s, id as int) {
            let j = choose|j: int| 0 <= j < s.len() && s[j].id == id;
            assert(s.skip(1)[j - 1] == s[j]);
            assert(has_id(s.skip(1), id as int));
        }
        if first_match(s.skip(1), id) >= 0 {
            let fm = first_match(s.skip(1), id);
            assert(s[1 + fm] == s.skip(1)[fm]);
            assert(has_id(s, id as int));
            assert forall|j: int| 0 <= j < first_match(s, id) implies s[j].id != id by {
                if j > 0 {
                    assert(s.skip(1)[j - 1] == s[j]);
                }
            }
        }
    }
}

/// Inserting at a position that respects the order keeps the store sorted.
pub proof fn lemma_sorted_insert(s: Seq<BeeData>, b: BeeData, k: int)
    requires
        sorted_by_id(s),
        0 <= k <= s.len(),
        forall|j: int| 0 <= j < k ==> s[j].id <= b.id,
        k < s.len() ==> s[k].id > b.id,
    ensures
        sorted_by_id(s.insert(k, b)),
{
    let t = s.insert(k, b);
    assert forall|i: int, j: int| 0 <= i < j < t.len() implies t[i].id <= t[j].id by {
        if i < k && j < k {
        } else if i < k && j == k {
            assert(t[i] == s[i] && t[j] == b);
        } else if i < k && j > k {
            assert(t[i] == s[i] && t[j] == s[j - 1]);
            if j - 1 >= k {
                assert(s[k].id > b.id);
                assert(s[i].id <= b.id);
                assert(s[k].id <= s[j - 1].id || k == j - 1);
            }
        } else if i == k {
            assert(t[i] == b && t[j] == s[j - 1]);
            assert(s[k].id > b.id);
            assert(k == j - 1 || s[k].id <= s[j - 1].id);
        } else {
            assert(t[i] == s[i - 1] && t[j] == s[j - 1]);
        }
    }
}

/// Removing any record keeps the store sorted.
pub proof fn lemma_sorted_remove(s: Seq<BeeData>, k: int)
    requires
        sorted_by_id(s),
        0 <= k < s.len(),
    ensures
        sorted_by_id(s.remove(k)),
{
    let t = s.remove(k);
    assert forall|i: int, j: int| 0 <= i < j < t.len() implies t[i].id <= t[j].id by {
        if i < k && j < k {
        } else if i < k {
            assert(t[i] == s[i] && t[j] == s[j + 1]);
        } else {
            assert(t[i] == s[i + 1] && t[j] == s[j + 1]);
        }
    }
}

/// No two records share an identity.
pub open spec fn distinct_ids(s: Seq<BeeData>) -> bool {
    forall|i: int, j: int| 0 <= i < j < s.len() ==> s[i].id != s[j].id
}

/// The listing is canonical: two sorted stores without duplicate identities
/// that hold the same records are identical, so the order in which records
/// were added leaves no trace in what `get_bees` returns.
pub proof fn lemma_sorted_listing_canonical(s1: Seq<BeeData>, s2: Seq<BeeData>)
    requires
        sorted_by_id(s1),
        sorted_by_id(s2),
        distinct_ids(s1),
        distinct_ids(s2),
        forall|r: BeeData| s1.contains(r) <==> s2.contains(r),
    ensures
        s1 == s2,
    decreases s1.len(),
{
    if s1.len() == 0 {
        if s2.len() > 0 {
            assert(s2.contains(s2[0]));
            assert(s1.contains(s2[0]));
            assert(false);
        }
        assert(s1 =~= s2);
    } else {
        assert(s1.contains(s1[0]));
        assert(s2.contains(s1[0]));
        let k = choose|k: int| 0 <= k < s2.len() && s2[k] == s1[0];
        assert(s2.contains(s2[0]));
        assert(s1.contains(s2[0]));
        let m = choose|m: int| 0 <= m < s1.len() && s1[m] == s2[0];
        assert(s1[0].id <= s1[m].id);
        assert(s2[0].id <= s2[k].id);
        if k > 0 {
            assert(s2[0].id == s2[k].id);
            assert(false);
        }
        assert(s2[0] == s1[0]);
        let t1 = s1.skip(1);
        let t2 = s2.skip(1);
        assert forall|r: BeeData| t1.contains(r) implies t2.contains(r) by {
            let i = choose|i: int| 0 <= i < t1.len() && t1[i] == r;
            assert(s1[i + 1] == r);
            assert(s1.contains(r));
            assert(s2.contains(r));
            let j = choose|j: int| 0 <= j < s2.len() && s2[j] == r;
            assert(s1[i + 1].id != s1[0].id);
            if j == 0 {
                assert(r == s1[0]);
                assert(false);
            }
            assert(t2[j - 1] == r);
        }
        assert forall|r: BeeData| t2.contains(r) implies t1.contains(r) by {
            let i = choose|i: int| 0 <= i < t2.len() && t2[i] == r;
            assert(s2[i + 1] == r);
            assert(s2.contains(r));
            assert(s1.contains(r));
            let j = choose|j: int| 0 <= j < s1.len() && s1[j] == r;
            assert(s2[i + 1].id != s2[0].id);
            if j == 0 {
                assert(r == s2[0]);
                assert(false);
            }
            assert(t1[j - 1] == r);
        }
        assert forall|i: int, j: int| 0 <= i < j < t1.len() implies t1[i].id <= t1[j].id by {
            assert(s1[i + 1].id <= s1[j + 1].id);
        }
        assert forall|i: int, j: int| 0 <= i < j < t2.len() implies t2[i].id <= t2[j].id by {
            assert(s2[i + 1].id <= s2[j + 1].id);
        }
        assert forall|i: int, j: int| 0 <= i < j < t1.len() implies t1[i].id != t1[j].id by {
            assert(s1[i + 1].id != s1[j + 1].id);
        }
        assert forall|i: int, j: int| 0 <= i < j < t2.len() implies t2[i].id != t2[j].id by {
            assert(s2[i + 1].id != s2[j + 1].id);
        }
        lemma_sorted_listing_canonical(t1, t2);
        assert(s1.len() == s2.len());
        assert forall|i: int| 0 <= i < s1.len() implies s1[i] == s2[i] by {
            if i > 0 {
                assert(s1[i] == t1[i - 1]);
                assert(s2[i] == t2[i - 1]);
            }
        }
        assert(s1 =~= s2);
    }
}

/// The registry itself.  Its view is the stored record sequence; every
/// operation keeps that sequence sorted by identity.
pub struct Registry {
    records: Vec<BeeData>,
}

impl View for Registry {
    type V = Seq<BeeData>;

    closed spec fn view(&self) -> Seq<BeeData> {
        self.records@
    }
}

impl Registry {
    /// The registry's well-formedness: records sorted in ascending identity
    /// order.  Constructors establish it and every operation preserves it.
    pub open spec fn wf(&self) -> bool {
        sorted_by_id(self@)
    }

    /// An empty registry.
    pub fn new() -> (r: Registry)
        ensures
            r@ == Seq::<BeeData>::empty(),
            r.wf(),
    {
        Registry { records: Vec::new() }
    }

    /// The number of stored records.
    pub fn count_bees(&self) -> (r: u64)
        ensures
            r as int == self@.len(),
    {
        self.records.len() as u64
    }

    /// Stores one record, after every record whose identity is at most the
    /// new one's.  Duplicate identities are not rejected here.
    pub fn add_bee(&mut self, bee: BeeData)
        requires
            old(self).wf(),
        ensures
            final(self).wf(),
            final(self)@ == old(self)@.insert(insert_pos(old(self)@, bee.id), bee),
    {
        let ghost s = self@;
        let mut k: usize = 0;
        let len = self.records.len();
        while k < len && self.records[k].id <= bee.id
            invariant
                0 <= k <= len,
                len == s.len(),
                self@ == s,
                forall|j: int| 0 <= j < k ==> s[j].id <= bee.id,
            decreases len - k,
        {
            k = k + 1;
        }
        proof {
            lemma_insert_pos_props(s, bee.id);
            let ip = insert_pos(s, bee.id);
            if k < ip {
                assert(s[k as int].id <= bee.id);
                assert(false);
            }
            if k > ip {
                assert(s[ip].id > bee.id);
                assert(false);
            }
            lemma_sorted_insert(s, bee, ip);
        }
        self.records.insert(k, bee);
    }

    /// Stores each record of `bees` in turn.
    pub fn add_bees(&mut self, bees: Vec<BeeData>)
        requires
            old(self).wf(),
        ensures
            final(self).wf(),
            final(self)@ == insert_all(old(self)@, bees@),
    {
        let mut i: usize = 0;
        let len = bees.len();
        proof {
            assert(bees@.skip(0) =~= bees@);
        }
        while i < len
            invariant
                0 <= i <= len,
                len == bees@.len(),
                self.wf(),
                insert_all(self@, bees@.skip(i as int)) == insert_all(old(self)@, bees@),
            decreases len - i,
        {
            let ghost before = self@;
            let bee = bees[i].clone();
            self.add_bee(bee);
            proof {
                assert(bees@.skip(i as int)[0] == bees@[i as int]);
                assert(bees@.skip(i as int).skip(1) =~= bees@.skip(i as int + 1));
            }
            i = i + 1;
        }
        proof {
            assert(bees@.skip(len as int) =~= Seq::<BeeData>::empty());
        }
    }

    /// Returns the first stored record with identity `bee_id`, or `None` when
    /// no record has it.
    pub fn get_bee(&self, bee_id: u8) -> (r: Option<BeeData>)
        ensures
            r is Some <==> has_id(self@, bee_id as int),
            r matches Some(b) ==> first_match(self@, bee_id) >= 0 && b == self@[first_match(
                self@,
                bee_id,
            )],
    {
        let len = self.records.len();
        let mut k: usize = 0;
        while k < len
            invariant
                0 <= k <= len,
                len == self@.len(),
                forall|j: int| 0 <= j < k ==> self@[j].id != bee_id,
            decreases len - k,
        {
            if self.records[k].id == bee_id {
                proof {
                    lemma_first_match_props(self@, bee_id);
                    assert(self@[k as int].id == bee_id);
                    assert(has_id(self@, bee_id as int));
                    let fm = first_match(self@, bee_id);
                    if k < fm {
                        assert(self@[k as int].id != bee_id);
                        assert(false);
                    }
                    if k > fm {
                        assert(self@[fm].id != bee_id);
                        assert(false);
                    }
                }
                return Some(self.records[k].clone());
            }
            k = k + 1;
        }
        None
    }

    /// Returns every stored record, in ascending identity order.
    pub fn get_bees(&self) -> (r: Vec<BeeData>)
        requires
            self.wf(),
        ensures
            r@ == self@,
            sorted_by_id(r@),
    {
        let len = self.records.len();
        let mut out: Vec<BeeData> = Vec::new();
        let mut k: usize = 0;
        proof {
            assert(out@ =~= self@.take(0));
        }
        while k < len
            invariant
                0 <= k <= len,
                len == self@.len(),
                out@ == self@.take(k as int),
            decreases len - k,
        {
            out.push(self.records[k].clone());
            proof {
                assert(self@.take(k as int).push(self@[k as int]) =~= self@.take(k as int + 1));
            }
            k = k + 1;
        }
        proof {
            assert(self@.take(len as int) =~= self@);
        }
        out
    }

    /// True when some stored record carries identity `bee_id`.
    pub fn contains_id(&self, bee_id: u8) -> (r: bool)
        ensures
            r == has_id(self@, bee_id as int),
    {
        let len = self.records.len();
        let mut k: usize = 0;
        while k < len
            invariant
                0 <= k <= len,
                len == self@.len(),
                forall|j: int| 0 <= j < k ==> self@[j].id != bee_id,
            decreases len - k,
        {
            if self.records[k].id == bee_id {
                return true;
            }
            k = k + 1;
        }
        false
    }

    /// Deletes the first stored record with identity `bee_id`; deleting an
    /// absent identity changes nothing and is not an error.
    pub fn delete_bee(&mut self, bee_id: u8)
        requires
            old(self).wf(),
        ensures
            final(self).wf(),
            final(self)@ == remove_first(old(self)@, bee_id),
    {
        let ghost s = self@;
        let len = self.records.len();
        let mut k: usize = 0;
        while k < len
            invariant
                0 <= k <= len,
                len == s.len(),
                self@ == s,
                old(self)@ == s,
                sorted_by_id(s),
                forall|j: int| 0 <= j < k ==> s[j].id != bee_id,
            decreases len - k,
        {
            if self.records[k].id == bee_id {
                proof {
                    lemma_first_match_props(s, bee_id);
                    assert(s[k as int].id == bee_id);
                    assert(has_id(s, bee_id as int));
                    let fm = first_match(s, bee_id);
                    assert(fm >= 0);
                    if k < fm {
                        assert(s[k as int].id != bee_id);
                        assert(false);
                    }
                    if k > fm {
                        assert(s[fm].id != bee_id);
                        assert(false);
                    }
                    lemma_sorted_remove(s, fm);
                }
                self.records.remove(k);
                return;
            }
            k = k + 1;
        }
        proof {
            lemma_first_match_props(s, bee_id);
            assert(!has_id(s, bee_id as int));
        }
    }
}

/// The result of storing each record of `bees` in turn into `s`.
pub open spec fn insert_all(s: Seq<BeeData>, bees: Seq<BeeData>) -> Seq<BeeData>
    decreases bees.len(),
{
    if bees.len() == 0 {
        s
    } else {
        insert_all(s.insert(insert_pos(s, bees[0].id), bees[0]), bees.skip(1))
    }
}

} // verus!
