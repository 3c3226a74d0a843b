//! The CPU governors in use, one per CPU, kept in the order of the CPU names.
use vstd::prelude::*;
use crate::text::chars_of;

verus! {

/// Whether `a` comes before `b` in lexicographic order of characters, which
/// is the order of `String`s by their UTF-8 bytes.
pub open spec fn text_less(a: Seq<char>, b: Seq<char>) -> bool
    decreases a.len(),
{
    if a.len() == 0 {
        b.len() > 0
    } else if b.len() == 0 {
        false
    } else if a[0] != b[0] {
        (a[0] as int) < (b[0] as int)
    } else {
        text_less(a.drop_first(), b.drop_first())
    }
}

pub proof fn lemma_text_less_irreflexive(a: Seq<char>)
    ensures
        !text_less(a, a),
    decreases a.len(),
{
    if a.len() > 0 {
        lemma_text_less_irreflexive(a.drop_first());
    }
}

pub proof fn lemma_text_less_transitive(a: Seq<char>, b: Seq<char>, c: Seq<char>)
    requires
        text_less(a, b),
        text_less(b, c),
    ensures
        text_less(a, c),
    decreases a.len(),
{
    if a.len() > 0 && b.len() > 0 && c.len() > 0 {
        if a[0] == b[0] && b[0] == c[0] {
            lemma_text_less_transitive(a.drop_first(), b.drop_first(), c.drop_first());
        }
    }
}

/// How two texts compare.
pub enum TextOrder {
    Before,
    Same,
    After,
}

/// How `a` compares with `b` in the order of `text_less`.
pub fn compare_text(a: &Vec<char>, b: &Vec<char>) -> (r: TextOrder)
    ensures
        r is Before <==> text_less(a@, b@),
        r is Same <==> a@ == b@,
        r is After <==> text_less(b@, a@),
{
    let mut i: usize = 0;
    assert(a@.subrange(0, a@.len() as int) =~= a@);
    assert(b@.subrange(0, b@.len() as int) =~= b@);
    while i < a.len() && i < b.len() && a[i] == b[i]
        invariant
            i <= a@.len(),
            i <= b@.len(),
            a@.subrange(0, i as int) == b@.subrange(0, i as int),
            text_less(a@, b@) == text_less(a@.subrange(i as int, a@.len() as int), b@.subrange(i as int, b@.len() as int)),
            text_less(b@, a@) == text_less(b@.subrange(i as int, b@.len() as int), a@.subrange(i as int, a@.len() as int)),
        decreases a@.len() - i,
    {
        proof {
            let ra = a@.subrange(i as int, a@.len() as int);
            let rb = b@.subrange(i as int, b@.len() as int);
            assert(ra.drop_first() =~= a@.subrange(i + 1, a@.len() as int));
            assert(rb.drop_first() =~= b@.subrange(i + 1, b@.len() as int));
            assert(a@.subrange(0, i + 1) =~= a@.subrange(0, i as int).push(a@[i as int]));
            assert(b@.subrange(0, i + 1) =~= b@.subrange(0, i as int).push(b@[i as int]));
        }
        i = i + 1;
    }
    proof {
        lemma_text_less_irreflexive(a@);
    }
    let ghost ra = a@.subrange(i as int, a@.len() as int);
    let ghost rb = b@.subrange(i as int, b@.len() as int);
    if i < a.len() && i < b.len() {
        assert(ra[0] == a@[i as int]);
        assert(rb[0] == b@[i as int]);
        proof {
            if a@ == b@ {
                assert(a@[i as int] == b@[i as int]);
            }
        }
        if a[i] < b[i] {
            TextOrder::Before
        } else {
            TextOrder::After
        }
    } else if i < a.len() {
        assert(rb.len() == 0 && ra.len() > 0);
        proof {
            if a@ == b@ {
                assert(false);
            }
        }
        TextOrder::After
    } else if i < b.len() {
        assert(ra.len() == 0 && rb.len() > 0);
        TextOrder::Before
    } else {
        assert(a@ =~= a@.subrange(0, i as int));
        assert(b@ =~= b@.subrange(0, i as int));
        TextOrder::Same
    }
}

/// The governor of each CPU, one entry per CPU, in the order of the CPU
/// names.
pub struct GovernorMap {
    entries: Vec<(String, String)>,
}

/// The entries of a governor map, as texts.
pub open spec fn entry_texts(v: Seq<(String, String)>) -> Seq<(Seq<char>, Seq<char>)> {
    v.map_values(|e: (String, String)| (e.0@, e.1@))
}

/// Whether the CPU names in `s` are in strictly increasing order.
pub open spec fn strictly_sorted(s: Seq<(Seq<char>, Seq<char>)>) -> bool {
    forall|i: int, j: int| 0 <= i < j < s.len() ==> text_less(#[trigger] s[i].0, #[trigger] s[j].0)
}

/// The map from CPU name to governor that `s` holds.
pub open spec fn as_map(s: Seq<(Seq<char>, Seq<char>)>) -> Map<Seq<char>, Seq<char>> {
    Map::new(
        |k: Seq<char>| exists|i: int| 0 <= i < s.len() && s[i].0 == k,
        |k: Seq<char>| s[choose|i: int| 0 <= i < s.len() && s[i].0 == k].1,
    )
}

impl View for GovernorMap {
    type V = Seq<(Seq<char>, Seq<char>)>;

    closed spec fn view(&self) -> Seq<(Seq<char>, Seq<char>)> {
        entry_texts(self.entries@)
    }
}

impl GovernorMap {
    #[verifier::type_invariant]
    closed spec fn sorted(&self) -> bool {
        strictly_sorted(entry_texts(self.entries@))
    }

    /// An empty map.
    pub fn new() -> (r: GovernorMap)
        ensures
            r@ == Seq::<(Seq<char>, Seq<char>)>::empty(),
    {
        let r = GovernorMap { entries: Vec::new() };
        assert(entry_texts(r.entries@) =~= Seq::<(Seq<char>, Seq<char>)>::empty());
        r
    }

    /// How many CPUs the map holds.
    /// The entries are in strictly increasing order of CPU name, so that no
    /// CPU occurs twice.
    pub fn len(&self) -> (r: usize)
        ensures
            r == self@.len(),
            strictly_sorted(self@),
    {
        proof {
            use_type_invariant(self);
        }
        self.entries.len()
    }

    /// The CPU name and governor at position `i`.
    pub fn entry(&self, i: usize) -> (r: (&String, &String))
        requires
            i < self@.len(),
        ensures
            r.0@ == self@[i as int].0,
            r.1@ == self@[i as int].1,
    {
        let e = &self.entries[i];
        (&e.0, &e.1)
    }

    /// Sets the governor of `cpu`, as `BTreeMap::insert` does: the entry of
    /// `cpu` gets `governor`, all others stay, and the order is kept.
    pub fn insert(&mut self, cpu: String, governor: String)
        ensures
            strictly_sorted(final(self)@),
            as_map(final(self)@) == as_map(old(self)@).insert(cpu@, governor@),
    {
        proof {
            use_type_invariant(&*self);
        }
        let ghost old_s = self@;
        let key = chars_of(cpu.as_str());
        let n = self.entries.len();
        let mut i: usize = 0;
        let mut found = false;
        while i < n
            invariant_except_break
                !found,
            invariant
                n == self.entries@.len(),
                self@ == old_s,
                strictly_sorted(old_s),
                key@ == cpu@,
                i <= n,
                forall|k: int| 0 <= k < i ==> text_less(#[trigger] old_s[k].0, key@),
            ensures
                n == self.entries@.len(),
                self@ == old_s,
                i <= n,
                forall|k: int| 0 <= k < i ==> text_less(#[trigger] old_s[k].0, key@),
                found ==> i < n && old_s[i as int].0 == key@,
                !found ==> i == n || text_less(key@, old_s[i as int].0),
            decreases n - i,
        {
            let name = chars_of(self.entries[i].0.as_str());
            assert(name@ == old_s[i as int].0);
            match compare_text(&name, &key) {
                TextOrder::Before => {
                    i = i + 1;
                },
                TextOrder::Same => {
                    found = true;
                    break;
                },
                TextOrder::After => {
                    break;
                },
            }
        }
        proof {
            assert forall|k: int| i <= k < old_s.len() && !found implies text_less(key@, #[trigger] old_s[k].0) by {
                if k == i {
                } else {
                    lemma_text_less_transitive(key@, old_s[i as int].0, old_s[k].0);
                }
            }
        }
        if found {
            let ghost new_s = old_s.update(i as int, (cpu@, governor@));
            proof {
                assert forall|a: int, b: int| 0 <= a < b < new_s.len() implies text_less(#[trigger] new_s[a].0, #[trigger] new_s[b].0) by {
                    assert(new_s[a].0 == old_s[a].0);
                    assert(new_s[b].0 == old_s[b].0);
                }
            }
            let mut entries: Vec<(String, String)> = Vec::new();
            std::mem::swap(&mut entries, &mut self.entries);
            entries.set(i, (cpu, governor));
            assert(entry_texts(entries@) =~= new_s);
            self.entries = entries;
            assert(self@ =~= new_s);
            proof {
                self.lemma_map_update(old_s, i as int);
            }
        } else {
            let ghost new_s = old_s.insert(i as int, (cpu@, governor@));
            proof {
                assert forall|a: int, b: int| 0 <= a < b < new_s.len() implies text_less(#[trigger] new_s[a].0, #[trigger] new_s[b].0) by {
                    if b < i {
                    } else if a < i && b == i {
                    } else if a < i {
                        lemma_text_less_transitive(old_s[a].0, key@, old_s[b - 1].0);
                    } else if a == i {
                    } else {
                    }
                }
            }
            let mut entries: Vec<(String, String)> = Vec::new();
            std::mem::swap(&mut entries, &mut self.entries);
            entries.insert(i, (cpu, governor));
            assert(entry_texts(entries@) =~= new_s);
            self.entries = entries;
            assert(self@ =~= new_s);
            proof {
                self.lemma_map_insert(old_s, i as int);
            }
        }
    }

    proof fn lemma_map_update(&self, old_s: Seq<(Seq<char>, Seq<char>)>, i: int)
        requires
            strictly_sorted(old_s),
            0 <= i < old_s.len(),
            self@ == old_s.update(i, (old_s[i].0, self@[i].1)),
            strictly_sorted(self@),
        ensures
            as_map(self@) == as_map(old_s).insert(old_s[i].0, self@[i].1),
    {
        let s = self@;
        let k0 = old_s[i].0;
        assert forall|k: Seq<char>| #[trigger] as_map(s).dom().contains(k) <==> as_map(old_s).insert(k0, s[i].1).dom().contains(k) by {
            if exists|j: int| 0 <= j < s.len() && s[j].0 == k {
                let j = choose|j: int| 0 <= j < s.len() && s[j].0 == k;
                assert(old_s[j].0 == k);
            }
            if exists|j: int| 0 <= j < old_s.len() && old_s[j].0 == k {
                let j = choose|j: int| 0 <= j < old_s.len() && old_s[j].0 == k;
                assert(s[j].0 == k);
            }
        }
        assert forall|k: Seq<char>| #[trigger] as_map(s).dom().contains(k) implies as_map(s)[k] == as_map(old_s).insert(k0, s[i].1)[k] by {
            let j = choose|j: int| 0 <= j < s.len() && s[j].0 == k;
            if k == k0 {
                if j != i {
                    lemma_text_less_irreflexive(k);
                }
            } else {
                let j2 = choose|j: int| 0 <= j < old_s.len() && old_s[j].0 == k;
                assert(old_s[j].0 == k);
                if j != j2 {
                    lemma_text_less_irreflexive(k);
                }
            }
        }
        assert(as_map(s) =~= as_map(old_s).insert(k0, s[i].1));
    }

    proof fn lemma_map_insert(&self, old_s: Seq<(Seq<char>, Seq<char>)>, i: int)
        requires
            strictly_sorted(old_s),
            0 <= i <= old_s.len(),
            self@ == old_s.insert(i, self@[i]),
            strictly_sorted(self@),
        ensures
            as_map(self@) == as_map(old_s).insert(self@[i].0, self@[i].1),
    {
        let s = self@;
        let k0 = s[i].0;
        assert forall|k: Seq<char>| #[trigger] as_map(s).dom().contains(k) <==> as_map(old_s).insert(k0, s[i].1).dom().contains(k) by {
            if exists|j: int| 0 <= j < s.len() && s[j].0 == k {
                let j = choose|j: int| 0 <= j < s.len() && s[j].0 == k;
                if j < i {
                    assert(old_s[j].0 == k);
                } else if j > i {
                    assert(old_s[j - 1].0 == k);
                }
            }
            if exists|j: int| 0 <= j < old_s.len() && old_s[j].0 == k {
                let j = choose|j: int| 0 <= j < old_s.len() && old_s[j].0 == k;
                if j < i {
                    assert(s[j].0 == k);
                } else {
                    assert(s[j + 1].0 == k);
                }
            }
        }
        assert forall|k: Seq<char>| #[trigger] as_map(s).dom().contains(k) implies as_map(s)[k] == as_map(old_s).insert(k0, s[i].1)[k] by {
            let j = choose|j: int| 0 <= j < s.len() && s[j].0 == k;
            if k == k0 {
                if j != i {
                    lemma_text_less_irreflexive(k);
                }
            } else {
                let j2 = choose|j: int| 0 <= j < old_s.len() && old_s[j].0 == k;
                let j3 = if j2 < i { j2 } else { j2 + 1 };
                assert(s[j3].0 == k);
                if j != j3 {
                    lemma_text_less_irreflexive(k);
                }
            }
        }
        assert(as_map(s) =~= as_map(old_s).insert(k0, s[i].1));
    }
}

} // verus!
