//! A model of the four-level page tables: the tables as an arena of 512-entry
//! tables, the frame field of a table entry naming the table below it, and the
//! mapping of one 4K page through them, as the page manager walks them.

use vstd::prelude::*;
use crate::arch::page::spec_accept;

verus! {

/// The frame field of an entry.
pub const PT_ADDRESS_BITS: u64 = 0x0000_FFFF_FFFF_F000;
/// The rights that a table entry takes from the page it leads to: NX, user, write.
pub const PT_RIGHTS: u64 = 0x8000_0000_0000_0006;
/// The most tables the arena holds.
pub const PT_MAX_TABLES: usize = 0x100_0000;

/// The index into the table of `level` (4 at the top, 1 for the page) of `va`.
pub open spec fn pt_index(va: u64, level: int) -> int {
    if level == 4 {
        ((va >> 39u64) & 0x1FF) as int
    } else if level == 3 {
        ((va >> 30u64) & 0x1FF) as int
    } else if level == 2 {
        ((va >> 21u64) & 0x1FF) as int
    } else {
        ((va >> 12u64) & 0x1FF) as int
    }
}

pub open spec fn pt_present(e: u64) -> bool {
    e & 1 == 1
}

/// The table that an entry leads to.
pub open spec fn pt_child(e: u64) -> int {
    ((e & PT_ADDRESS_BITS) / 0x1000) as int
}

proof fn lemma_pt_bits(va: u64, x: u64, a: u64, n: u64)
    by (bit_vector)
    requires
        n < 0x1000_0000,
    ensures
        0u64 & 1 == 0,
        (va >> 39u64) & 0x1FF < 512,
        (va >> 30u64) & 0x1FF < 512,
        (va >> 21u64) & 0x1FF < 512,
        (va >> 12u64) & 0x1FF < 512,
        ({
            let clear_nx = x & 0x8000_0000_0000_0000 == 0x8000_0000_0000_0000 && a
                & 0x8000_0000_0000_0000 != 0x8000_0000_0000_0000;
            let x1 = if clear_nx { x & !0x8000_0000_0000_0000u64 } else { x };
            let set_w = x1 & 2 != 2 && a & 2 == 2;
            let x2 = if set_w { x1 | 2 } else { x1 };
            x2 & 0x0000_FFFF_FFFF_F000 == x & 0x0000_FFFF_FFFF_F000 && x2 & 1 == x & 1
        }),
        ((((n * 0x1000) as u64 & 0x0000_FFFF_FFFF_F000) | (1u64 | (a & 0x8000_0000_0000_0006)))
            & 0x0000_FFFF_FFFF_F000) / 0x1000 == n,
        (((n * 0x1000) as u64 & 0x0000_FFFF_FFFF_F000) | (1u64 | (a & 0x8000_0000_0000_0006))) & 1 == 1,
{
}

/// The page tables: table `t` holds entries `512 t` to `512 t + 511`, and its
/// level is `levels[t]`; table 0 is the top one.
pub struct PageTables {
    pub entries: Vec<u64>,
    pub levels: Vec<u8>,
}

impl PageTables {
    pub open spec fn entry(&self, t: int, i: int) -> u64 {
        self.entries@[t * 512 + i]
    }

    /// Every present entry of a table above the pages leads to a table one level down.
    pub open spec fn wf(&self) -> bool {
        &&& self.levels@.len() >= 1
        &&& self.levels@.len() <= PT_MAX_TABLES
        &&& self.entries@.len() == 512 * self.levels@.len()
        &&& self.levels@[0] == 4
        &&& forall|t: int| 0 <= t < self.levels@.len() ==> 1 <= #[trigger] self.levels@[t] <= 4
        &&& forall|t: int, i: int|
            #![trigger self.entry(t, i)]
            0 <= t < self.levels@.len() && 0 <= i < 512 && self.levels@[t] > 1 && pt_present(self.entry(t, i))
                ==> 0 <= pt_child(self.entry(t, i)) < self.levels@.len()
                && self.levels@[pt_child(self.entry(t, i))] == self.levels@[t] - 1
    }

    /// The table of `level` on the path of `va`, where the path gets that far.
    pub open spec fn reach(&self, va: u64, level: int) -> Option<int>
        decreases 4 - level,
    {
        if level >= 4 {
            Some(0)
        } else {
            match self.reach(va, level + 1) {
                Some(t) => {
                    let e = self.entry(t, pt_index(va, level + 1));
                    if pt_present(e) {
                        Some(pt_child(e))
                    } else {
                        None
                    }
                },
                None => None,
            }
        }
    }

    /// The page entry that `va` translates through, if its whole path is present.
    pub open spec fn translate(&self, va: u64) -> Option<u64> {
        match self.reach(va, 1) {
            Some(t) => if pt_present(self.entry(t, pt_index(va, 1))) {
                Some(self.entry(t, pt_index(va, 1)))
            } else {
                None
            },
            None => None,
        }
    }

    /// The entry of the page directory (level 2) on the path of `va`.
    pub open spec fn pd_entry(&self, va: u64) -> Option<u64> {
        match self.reach(va, 2) {
            Some(t) => Some(self.entry(t, pt_index(va, 2))),
            None => None,
        }
    }

    /// Empty tables: a top table with no entry.
    pub fn new() -> (r: Self)
        ensures
            r.wf(),
            r.levels@ == seq![4u8],
            forall|i: int| 0 <= i < 512 ==> #[trigger] r.entries@[i] == 0,
    {
        let mut entries: Vec<u64> = Vec::new();
        let mut i: usize = 0;
        while i < 512
            invariant
                i <= 512,
                entries@.len() == i,
                forall|j: int| 0 <= j < i ==> #[trigger] entries@[j] == 0,
            decreases 512 - i,
        {
            entries.push(0);
            i += 1;
        }
        let mut levels: Vec<u8> = Vec::new();
        levels.push(4);
        let r = PageTables { entries, levels };
        assert forall|t: int, i: int|
            #![trigger r.entry(t, i)]
            0 <= t < r.levels@.len() && 0 <= i < 512 && r.levels@[t] > 1 && pt_present(r.entry(t, i))
            implies 0 <= pt_child(r.entry(t, i)) < r.levels@.len()
                && r.levels@[pt_child(r.entry(t, i))] == r.levels@[t] - 1 by {
            assert(r.entry(t, i) == 0);
            lemma_pt_bits(0, 0, 0, 0);
        }
        r
    }
}


impl PageTables {
    /// Every table of `other` that `self` does not have is empty.
    pub open spec fn new_tables_zero(old_tables: &Self, new_tables: &Self) -> bool {
        forall|u: int, j: int|
            #![trigger new_tables.entry(u, j)]
            old_tables.levels@.len() <= u < new_tables.levels@.len() && 0 <= j < 512 ==> new_tables.entry(u, j) == 0
    }

    /// `other` has the tables of `self` (and maybe more), and the same entries in
    /// every table of `self` above `level`.
    pub open spec fn agrees_above(&self, other: &Self, level: int) -> bool {
        &&& self.levels@.len() <= other.levels@.len()
        &&& forall|t: int| 0 <= t < self.levels@.len() ==> #[trigger] other.levels@[t] == self.levels@[t]
        &&& forall|t: int, i: int|
            #![trigger other.entry(t, i)]
            0 <= t < self.levels@.len() && 0 <= i < 512 && self.levels@[t] > level ==> other.entry(t, i)
                == self.entry(t, i)
    }

    /// The table that the path of `va` reaches at `level` has that level.
    pub proof fn lemma_reach_level(&self, va: u64, level: int)
        requires
            self.wf(),
            1 <= level <= 4,
        ensures
            self.reach(va, level) matches Some(t) ==> 0 <= t < self.levels@.len() && self.levels@[t] == level,
        decreases 4 - level,
    {
        if level < 4 {
            self.lemma_reach_level(va, level + 1);
            if let Some(t) = self.reach(va, level + 1) {
                lemma_pt_bits(va, 0, 0, 0);
                let _ = self.entry(t, pt_index(va, level + 1));
            }
        }
    }

    /// The path down to `level` only reads tables above `level`.
    pub proof fn lemma_reach_frame(&self, other: &Self, va: u64, level: int)
        requires
            self.wf(),
            self.agrees_above(other, level),
            1 <= level <= 4,
        ensures
            other.reach(va, level) == self.reach(va, level),
        decreases 4 - level,
    {
        if level < 4 {
            self.lemma_reach_frame(other, va, level + 1);
            self.lemma_reach_level(va, level + 1);
            lemma_pt_bits(va, 0, 0, 0);
            if let Some(t) = self.reach(va, level + 1) {
                assert(other.entry(t, pt_index(va, level + 1)) == self.entry(t, pt_index(va, level + 1)));
            }
        }
    }

    fn pt_index_exec(va: u64, level: u8) -> (r: usize)
        requires
            1 <= level <= 4,
        ensures
            r == pt_index(va, level as int),
            r < 512,
    {
        proof {
            lemma_pt_bits(va, 0, 0, 0);
        }
        if level == 4 {
            ((va >> 39u64) & 0x1FF) as usize
        } else if level == 3 {
            ((va >> 30u64) & 0x1FF) as usize
        } else if level == 2 {
            ((va >> 21u64) & 0x1FF) as usize
        } else {
            ((va >> 12u64) & 0x1FF) as usize
        }
    }

    /// One step down the path of `va` from table `t` of `level`: an existing
    /// table takes the template's rights, a missing one is appended, zeroed.
    fn descend(&mut self, t: usize, level: u8, va: u64, template: u64) -> (r: usize)
        requires
            old(self).wf(),
            old(self).levels@.len() < PT_MAX_TABLES,
            2 <= level <= 4,
            old(self).reach(va, level as int) == Some(t as int),
            level == 2 ==> !(pt_present(old(self).entry(t as int, pt_index(va, 2)))
                && old(self).entry(t as int, pt_index(va, 2)) & 0x80 == 0x80),
        ensures
            final(self).wf(),
            final(self).levels@.len() <= old(self).levels@.len() + 1,
            old(self).agrees_above(&*final(self), level as int),
            final(self).reach(va, level - 1) == Some(r as int),
            forall|u: int, j: int|
                #![trigger final(self).entry(u, j)]
                0 <= u < old(self).levels@.len() && 0 <= j < 512 && !(u == t && j == pt_index(va, level as int))
                    ==> final(self).entry(u, j) == old(self).entry(u, j),
            r < old(self).levels@.len() ==> old(self).reach(va, level - 1) == Some(r as int),
            r >= old(self).levels@.len() ==> r == old(self).levels@.len() && forall|j: int|
                0 <= j < 512 ==> #[trigger] final(self).entry(r as int, j) == 0,
            final(self).entries@.len() == 512 * final(self).levels@.len(),
            Self::new_tables_zero(&*old(self), &*final(self)),
            ({
                let e0 = old(self).entry(t as int, pt_index(va, level as int));
                let e1 = final(self).entry(t as int, pt_index(va, level as int));
                if pt_present(e0) {
                    pt_present(e1) && pt_child(e1) == pt_child(e0)
                } else {
                    pt_present(e1) && pt_child(e1) >= old(self).levels@.len()
                }
            }),
    {
        proof {
            self.lemma_reach_level(va, level as int);
        }
        let i = Self::pt_index_exec(va, level);
        let el = self.entries.len();
        assert((t as int) * 512 + (i as int) < el);
        let k = t * 512 + i;
        let e = self.entries[k];
        let ghost before = *self;
        let step = crate::arch::page::PageManager::table_step(
            crate::arch::page::PageTableEntry(e),
            crate::arch::page::PageTableEntry(template),
        );
        if let crate::arch::page::TableStep::Accept { entry, changed: _ } = step {
            let x2 = entry.0;
            proof {
                lemma_pt_bits(va, e, template & PT_RIGHTS, 0);
            }
            self.entries.set(k, x2);
            proof {
                assert forall|u: int, j: int|
                    #![trigger self.entry(u, j)]
                    0 <= u < self.levels@.len() && 0 <= j < 512 && self.levels@[u] > 1 && pt_present(self.entry(u, j))
                    implies 0 <= pt_child(self.entry(u, j)) < self.levels@.len()
                        && self.levels@[pt_child(self.entry(u, j))] == self.levels@[u] - 1 by {
                    if u * 512 + j == k as int {
                        assert(u == t && j == i);
                        assert(before.entry(u, j) == e);
                    } else {
                        assert(self.entry(u, j) == before.entry(u, j));
                    }
                }
                assert forall|u: int, j: int|
                    #![trigger self.entry(u, j)]
                    0 <= u < before.levels@.len() && 0 <= j < 512 && before.levels@[u] > level as int
                    implies self.entry(u, j) == before.entry(u, j) by {
                    if u * 512 + j == k as int {
                        assert(u == t && j == i);
                    }
                }
                before.lemma_reach_frame(self, va, level as int);
                assert(self.entry(t as int, i as int) == x2);
            }
            ((x2 & PT_ADDRESS_BITS) / 0x1000) as usize
        } else {
            let n = self.levels.len();
            let mut j: usize = 0;
            while j < 512
                invariant
                    j <= 512,
                    self.levels@ == before.levels@,
                    self.entries@.len() == before.entries@.len() + j,
                    forall|x: int| 0 <= x < before.entries@.len() ==> #[trigger] self.entries@[x] == before.entries@[x],
                    forall|x: int| before.entries@.len() <= x < self.entries@.len() ==> #[trigger] self.entries@[x] == 0,
                decreases 512 - j,
            {
                self.entries.push(0);
                j += 1;
            }
            self.levels.push(level - 1);
            let pa: u64 = (n as u64) * 0x1000;
            let ne: u64 = (pa & PT_ADDRESS_BITS) | (1u64 | (template & PT_RIGHTS));
            proof {
                lemma_pt_bits(va, 0, template, n as u64);
            }
            self.entries.set(k, ne);
            proof {
                lemma_pt_bits(0, 0, 0, 0);
                assert forall|u: int, jj: int|
                    #![trigger self.entry(u, jj)]
                    0 <= u < self.levels@.len() && 0 <= jj < 512 && self.levels@[u] > 1 && pt_present(self.entry(u, jj))
                    implies 0 <= pt_child(self.entry(u, jj)) < self.levels@.len()
                        && self.levels@[pt_child(self.entry(u, jj))] == self.levels@[u] - 1 by {
                    if u * 512 + jj == k as int {
                        assert(u == t && jj == i);
                    } else if u < n {
                        assert(self.entry(u, jj) == before.entry(u, jj));
                    } else {
                        assert(self.entry(u, jj) == 0);
                    }
                }
                assert forall|u: int, jj: int|
                    #![trigger self.entry(u, jj)]
                    0 <= u < before.levels@.len() && 0 <= jj < 512 && before.levels@[u] > level as int
                    implies self.entry(u, jj) == before.entry(u, jj) by {
                    if u * 512 + jj == k as int {
                        assert(u == t && jj == i);
                    }
                }
                before.lemma_reach_frame(self, va, level as int);
                assert(self.entry(t as int, i as int) == ne);
            }
            n
        }
    }
}


impl PageTables {
    /// Maps the 4K page at `va` to the page entry `pte`: the tables on the way
    /// that exist take the rights of `template`, the missing ones are made
    /// (zeroed, present, with the template's rights), and the page entry is
    /// written. Afterwards `va` translates through `pte` when it is present.
    pub fn map_page(&mut self, va: u64, pte: u64, template: u64)
        requires
            old(self).wf(),
            old(self).levels@.len() + 3 <= PT_MAX_TABLES,
            old(self).pd_entry(va) matches Some(e) ==> !(pt_present(e) && e & 0x80 == 0x80),
        ensures
            final(self).wf(),
            final(self).levels@.len() <= old(self).levels@.len() + 3,
            final(self).translate(va) == if pt_present(pte) { Some(pte) } else { None::<u64> },
            forall|va2: u64|
                !(#[trigger] final(self).reach(va2, 1) == final(self).reach(va, 1) && pt_index(va2, 1) == pt_index(va, 1))
                    ==> final(self).translate(va2) == old(self).translate(va2),
    {
        let ghost s0 = *self;
        proof {
            assert(s0.reach(va, 4) == Some(0int));
            lemma_pt_bits(va, 0, 0, 0);
        }
        let t3 = self.descend(0, 4, va, template);
        let ghost s1 = *self;
        let t2 = self.descend(t3, 3, va, template);
        let ghost s2 = *self;
        proof {
            s2.lemma_reach_level(va, 2);
            s1.lemma_reach_level(va, 3);
            s0.lemma_reach_level(va, 3);
            s0.lemma_reach_level(va, 2);
            s1.lemma_reach_level(va, 2);
            let i2 = pt_index(va, 2);
            let i3 = pt_index(va, 3);
            if (t2 as int) < s1.levels@.len() {
                assert(s1.reach(va, 2) == Some(t2 as int));
                if (t3 as int) >= s0.levels@.len() {
                    assert(s1.entry(t3 as int, i3) == 0);
                    lemma_pt_bits(0, 0, 0, 0);
                    assert(false);
                }
                assert(s0.reach(va, 3) == Some(t3 as int));
                assert(s1.entry(t3 as int, i3) == s0.entry(t3 as int, i3));
                assert(s0.reach(va, 2) == Some(t2 as int));
                assert(s2.entry(t2 as int, i2) == s1.entry(t2 as int, i2));
                assert(s1.entry(t2 as int, i2) == s0.entry(t2 as int, i2));
            } else {
                assert(s2.entry(t2 as int, i2) == 0);
                lemma_pt_bits(0, 0, 0, 0);
            }
        }
        let t1 = self.descend(t2, 2, va, template);
        let ghost s3 = *self;
        proof {
            s3.lemma_reach_level(va, 1);
        }
        let i = Self::pt_index_exec(va, 1);
        let el = self.entries.len();
        assert((t1 as int) * 512 + (i as int) < el);
        let k = t1 * 512 + i;
        self.entries.set(k, pte);
        proof {
            assert forall|u: int, j: int|
                #![trigger self.entry(u, j)]
                0 <= u < self.levels@.len() && 0 <= j < 512 && self.levels@[u] > 1 && pt_present(self.entry(u, j))
                implies 0 <= pt_child(self.entry(u, j)) < self.levels@.len()
                    && self.levels@[pt_child(self.entry(u, j))] == self.levels@[u] - 1 by {
                if u * 512 + j == k as int {
                    assert(u == t1 as int && j == i as int);
                } else {
                    assert(self.entry(u, j) == s3.entry(u, j));
                }
            }
            assert forall|u: int, j: int|
                #![trigger self.entry(u, j)]
                0 <= u < s3.levels@.len() && 0 <= j < 512 && s3.levels@[u] > 1
                implies self.entry(u, j) == s3.entry(u, j) by {
                if u * 512 + j == k as int {
                    assert(u == t1 as int && j == i as int);
                }
            }
            s3.lemma_reach_frame(self, va, 1);
            assert(self.entry(t1 as int, i as int) == pte);
            s0.lemma_reach_level(va, 4);
            s1.lemma_reach_level(va, 3);
            s2.lemma_reach_level(va, 2);
            assert forall|va2: u64|
                !(#[trigger] self.reach(va2, 1) == self.reach(va, 1) && pt_index(va2, 1) == pt_index(va, 1))
                implies self.translate(va2) == s0.translate(va2) by {
                Self::lemma_step_translate(&s0, &s1, 0, 4, va, va2);
                Self::lemma_step_translate(&s1, &s2, t3 as int, 3, va, va2);
                Self::lemma_step_translate(&s2, &s3, t2 as int, 2, va, va2);
                s3.lemma_reach_frame(self, va2, 1);
                s3.lemma_reach_level(va2, 1);
                lemma_pt_bits(va2, 0, 0, 0);
                if let Some(x) = s3.reach(va2, 1) {
                    if !(x == t1 as int && pt_index(va2, 1) == i as int) {
                        assert(x * 512 + pt_index(va2, 1) != k as int);
                        assert(self.entry(x, pt_index(va2, 1)) == s3.entry(x, pt_index(va2, 1)));
                    }
                }
            }
        }
    }
}


impl PageTables {
    /// The relation between the paths before and after one step down: the same
    /// table, or a path that did not exist before and now ends in a new table.
    pub open spec fn reach_related(a: &Self, b: &Self, va: u64, m: int) -> bool {
        ||| b.reach(va, m) == a.reach(va, m)
        ||| a.reach(va, m) is None && (b.reach(va, m) is None || (b.reach(va, m) matches Some(z)
            && a.levels@.len() <= z < b.levels@.len()))
    }

    proof fn lemma_step_reach(a: &Self, b: &Self, t: int, level: int, va: u64, va2: u64, m: int)
        requires
            a.wf(),
            b.wf(),
            2 <= level <= 4,
            1 <= m <= 4,
            0 <= t < a.levels@.len(),
            a.levels@[t] == level,
            a.levels@.len() <= b.levels@.len(),
            forall|u: int| 0 <= u < a.levels@.len() ==> #[trigger] b.levels@[u] == a.levels@[u],
            forall|u: int, j: int|
                #![trigger b.entry(u, j)]
                0 <= u < a.levels@.len() && 0 <= j < 512 && !(u == t && j == pt_index(va, level))
                    ==> b.entry(u, j) == a.entry(u, j),
            Self::new_tables_zero(a, b),
            ({
                let e0 = a.entry(t, pt_index(va, level));
                let e1 = b.entry(t, pt_index(va, level));
                if pt_present(e0) {
                    pt_present(e1) && pt_child(e1) == pt_child(e0)
                } else {
                    pt_present(e1) && pt_child(e1) >= a.levels@.len()
                }
            }),
        ensures
            Self::reach_related(a, b, va2, m),
        decreases 4 - m,
    {
        if m < 4 {
            Self::lemma_step_reach(a, b, t, level, va, va2, m + 1);
            a.lemma_reach_level(va2, m + 1);
            b.lemma_reach_level(va2, m + 1);
            lemma_pt_bits(va2, 0, 0, 0);
            lemma_pt_bits(va, 0, 0, 0);
            let j2 = pt_index(va2, m + 1);
            if b.reach(va2, m + 1) == a.reach(va2, m + 1) {
                if let Some(x) = a.reach(va2, m + 1) {
                    if !(x == t && j2 == pt_index(va, level)) {
                        assert(b.entry(x, j2) == a.entry(x, j2));
                    }
                }
            } else if let Some(z) = b.reach(va2, m + 1) {
                assert(b.entry(z, j2) == 0);
                lemma_pt_bits(0, 0, 0, 0);
            }
        }
    }

    /// A step down the path of one page leaves the translation of every page as it was.
    proof fn lemma_step_translate(a: &Self, b: &Self, t: int, level: int, va: u64, va2: u64)
        requires
            a.wf(),
            b.wf(),
            2 <= level <= 4,
            0 <= t < a.levels@.len(),
            a.levels@[t] == level,
            a.levels@.len() <= b.levels@.len(),
            forall|u: int| 0 <= u < a.levels@.len() ==> #[trigger] b.levels@[u] == a.levels@[u],
            forall|u: int, j: int|
                #![trigger b.entry(u, j)]
                0 <= u < a.levels@.len() && 0 <= j < 512 && !(u == t && j == pt_index(va, level))
                    ==> b.entry(u, j) == a.entry(u, j),
            Self::new_tables_zero(a, b),
            ({
                let e0 = a.entry(t, pt_index(va, level));
                let e1 = b.entry(t, pt_index(va, level));
                if pt_present(e0) {
                    pt_present(e1) && pt_child(e1) == pt_child(e0)
                } else {
                    pt_present(e1) && pt_child(e1) >= a.levels@.len()
                }
            }),
        ensures
            b.translate(va2) == a.translate(va2),
    {
        Self::lemma_step_reach(a, b, t, level, va, va2, 1);
        a.lemma_reach_level(va2, 1);
        b.lemma_reach_level(va2, 1);
        lemma_pt_bits(va2, 0, 0, 0);
        let j1 = pt_index(va2, 1);
        if b.reach(va2, 1) == a.reach(va2, 1) {
            if let Some(x) = a.reach(va2, 1) {
                assert(x != t);
                assert(b.entry(x, j1) == a.entry(x, j1));
            }
        } else if let Some(z) = b.reach(va2, 1) {
            assert(b.entry(z, j1) == 0);
            lemma_pt_bits(0, 0, 0, 0);
        }
    }
}


impl PageTables {
    /// A path that ends above the pages does not reach them.
    proof fn lemma_reach_none(s: &Self, va: u64, m: int)
        requires
            1 <= m <= 4,
            s.reach(va, m) is None,
        ensures
            s.reach(va, 1) is None,
        decreases m,
    {
        if m > 1 {
            Self::lemma_reach_none(s, va, m - 1);
        }
    }

    /// The page entry that `va` translates through, walking the tables.
    pub fn lookup(&self, va: u64) -> (r: Option<u64>)
        requires
            self.wf(),
        ensures
            r == self.translate(va),
    {
        let mut t: usize = 0;
        let mut level: u8 = 4;
        let el = self.entries.len();
        while level > 1
            invariant
                self.wf(),
                el == self.entries@.len(),
                1 <= level <= 4,
                self.reach(va, level as int) == Some(t as int),
            decreases level,
        {
            proof {
                self.lemma_reach_level(va, level as int);
            }
            let i = Self::pt_index_exec(va, level);
            assert((t as int) * 512 + (i as int) < el);
            let e = self.entries[t * 512 + i];
            if e & 1 != 1 {
                proof {
                    Self::lemma_reach_none(self, va, level as int - 1);
                }
                return None;
            }
            t = ((e & PT_ADDRESS_BITS) / 0x1000) as usize;
            level = level - 1;
        }
        proof {
            self.lemma_reach_level(va, 1);
        }
        let i = Self::pt_index_exec(va, 1);
        assert((t as int) * 512 + (i as int) < el);
        let e = self.entries[t * 512 + i];
        if e & 1 == 1 {
            Some(e)
        } else {
            None
        }
    }
}

} // verus!
