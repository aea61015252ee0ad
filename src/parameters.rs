use vstd::prelude::*;

verus! {

/// The map that a list of name/value pairs stands for; a later pair wins.
pub open spec fn pairs_map(s: Seq<(String, String)>) -> Map<Seq<char>, Seq<char>>
    decreases s.len(),
{
    if s.len() == 0 {
        Map::empty()
    } else {
        pairs_map(s.drop_last()).insert(s.last().0@, s.last().1@)
    }
}

/// No two pairs share a name.
pub open spec fn unique_names(s: Seq<(String, String)>) -> bool {
    forall|i: int, j: int| 0 <= i < j < s.len() ==> (#[trigger] s[i]).0@ != (#[trigger] s[j]).0@
}

/// Named textual arguments supplied to an evaluation of a model. Two values
/// are equal when they map the same names to the same values, whatever the
/// order in which the arguments were inserted.
#[derive(Debug)]
pub struct Parameters {
    entries: Vec<(String, String)>,
}

proof fn lemma_pairs_map_lookup(s: Seq<(String, String)>)
    requires
        unique_names(s),
    ensures
        forall|i: int| 0 <= i < s.len() ==> #[trigger] pairs_map(s).contains_key(s[i].0@)
            && pairs_map(s)[s[i].0@] == s[i].1@,
        forall|k: Seq<char>| #[trigger] pairs_map(s).contains_key(k) ==> exists|i: int|
            0 <= i < s.len() && (#[trigger] s[i]).0@ == k,
    decreases s.len(),
{
    if s.len() > 0 {
        let t = s.drop_last();
        assert(unique_names(t)) by {
            assert forall|i: int, j: int| 0 <= i < j < t.len() implies (#[trigger] t[i]).0@ != (
            #[trigger] t[j]).0@ by {
                assert(t[i] == s[i] && t[j] == s[j]);
            }
        }
        lemma_pairs_map_lookup(t);
        assert forall|k: Seq<char>| #[trigger] pairs_map(s).contains_key(k) implies exists|i: int|
            0 <= i < s.len() && (#[trigger] s[i]).0@ == k by {
            if k != s.last().0@ {
                assert(pairs_map(t).contains_key(k));
                let i = choose|i: int| 0 <= i < t.len() && (#[trigger] t[i]).0@ == k;
                assert(s[i] == t[i]);
            } else {
                assert(s[s.len() - 1] == s.last());
            }
        }
        assert forall|i: int| 0 <= i < s.len() implies #[trigger] pairs_map(s).contains_key(s[i].0@)
            && pairs_map(s)[s[i].0@] == s[i].1@ by {
            assert(s[s.len() - 1] == s.last());
            if i < s.len() - 1 {
                assert(s[i] == t[i]);
                assert(pairs_map(t).contains_key(t[i].0@));
                assert(s[i].0@ != s[s.len() - 1].0@);
            }
        }
    }
}

proof fn lemma_pairs_map_update(s: Seq<(String, String)>, i: int, p: (String, String))
    requires
        unique_names(s),
        0 <= i < s.len(),
        s[i].0@ == p.0@,
    ensures
        unique_names(s.update(i, p)),
        pairs_map(s.update(i, p)) =~= pairs_map(s).insert(p.0@, p.1@),
{
    let u = s.update(i, p);
    assert forall|a: int, b: int| 0 <= a < b < u.len() implies (#[trigger] u[a]).0@ != (
    #[trigger] u[b]).0@ by {
        assert(u[a].0@ == s[a].0@ && u[b].0@ == s[b].0@);
    }
    lemma_pairs_map_lookup(s);
    lemma_pairs_map_lookup(u);
    assert forall|k: Seq<char>| #[trigger] pairs_map(u).contains_key(k) <==> pairs_map(s).insert(
        p.0@,
        p.1@,
    ).contains_key(k) by {
        if pairs_map(u).contains_key(k) {
            let j = choose|j: int| 0 <= j < u.len() && (#[trigger] u[j]).0@ == k;
            assert(u[j].0@ == s[j].0@);
        }
        if pairs_map(s).contains_key(k) {
            let j = choose|j: int| 0 <= j < s.len() && (#[trigger] s[j]).0@ == k;
            assert(u[j].0@ == s[j].0@);
        }
    }
    assert forall|k: Seq<char>| #[trigger] pairs_map(u).contains_key(k) implies pairs_map(u)[k]
        == pairs_map(s).insert(p.0@, p.1@)[k] by {
        let j = choose|j: int| 0 <= j < u.len() && (#[trigger] u[j]).0@ == k;
        if j != i {
            assert(u[j] == s[j]);
        }
    }
}

impl View for Parameters {
    type V = Map<Seq<char>, Seq<char>>;

    closed spec fn view(&self) -> Map<Seq<char>, Seq<char>> {
        pairs_map(self.entries@)
    }
}

impl Parameters {
    /// Names are unique and not empty.
    #[verifier::type_invariant]
    closed spec fn inv(&self) -> bool {
        &&& unique_names(self.entries@)
        &&& forall|i: int| 0 <= i < self.entries@.len() ==> (#[trigger] self.entries@[i]).0@.len() > 0
    }

    /// Parameters holding no argument.
    pub fn new() -> (r: Self)
        ensures
            r@ == Map::<Seq<char>, Seq<char>>::empty(),
    {
        Parameters { entries: Vec::new() }
    }

    /// Set the argument `name` to `value`, replacing an earlier value of it.
    /// Names must not be empty.
    pub fn insert(&mut self, name: String, value: String)
        requires
            name@.len() > 0,
        ensures
            final(self)@ == old(self)@.insert(name@, value@),
    {
        proof {
            use_type_invariant(&*self);
        }
        let mut entries = Vec::new();
        std::mem::swap(&mut entries, &mut self.entries);
        let ghost s = entries@;
        let n = entries.len();
        let mut i: usize = 0;
        while i < n
            invariant
                n == entries@.len(),
                entries@ == s,
                s == old(self).entries@,
                unique_names(s),
                forall|j: int| 0 <= j < s.len() ==> (#[trigger] s[j]).0@.len() > 0,
                0 <= i <= n,
                forall|j: int| 0 <= j < i ==> (#[trigger] s[j]).0@ != name@,
            decreases n - i,
        {
            if entries[i].0 == name {
                entries.set(i, (name, value));
                proof {
                    assert forall|j: int| 0 <= j < entries@.len() implies (#[trigger] entries@[j]).0@.len() > 0 by {
                        if j != i {
                            assert(entries@[j] == s[j]);
                        }
                    }
                    lemma_pairs_map_update(s, i as int, entries@[i as int]);
                    assert(entries@ == s.update(i as int, entries@[i as int]));
                }
                self.entries = entries;
                return;
            }
            i = i + 1;
        }
        entries.push((name, value));
        proof {
            assert(entries@.drop_last() =~= s);
            assert forall|j: int| 0 <= j < entries@.len() implies (#[trigger] entries@[j]).0@.len() > 0 by {
                if j < s.len() {
                    assert(entries@[j] == s[j]);
                }
            }
            assert forall|a: int, b: int| 0 <= a < b < entries@.len() implies (
            #[trigger] entries@[a]).0@ != (#[trigger] entries@[b]).0@ by {
                if b < s.len() {
                    assert(entries@[a] == s[a] && entries@[b] == s[b]);
                }
            }
        }
        self.entries = entries;
    }

    /// The value of the argument `name`, if there is one.
    pub fn get(&self, name: &String) -> (r: Option<&String>)
        ensures
            r is Some <==> self@.contains_key(name@),
            r is Some ==> r->0@ == self@[name@],
    {
        proof {
            use_type_invariant(self);
            lemma_pairs_map_lookup(self.entries@);
        }
        let n = self.entries.len();
        let mut i: usize = 0;
        while i < n
            invariant
                n == self.entries@.len(),
                unique_names(self.entries@),
                0 <= i <= n,
                forall|j: int| 0 <= j < i ==> (#[trigger] self.entries@[j]).0@ != name@,
            decreases n - i,
        {
            if self.entries[i].0 == *name {
                proof {
                    lemma_pairs_map_lookup(self.entries@);
                }
                return Some(&self.entries[i].1);
            }
            i = i + 1;
        }
        None
    }

    /// The number of arguments.
    pub fn len(&self) -> (r: usize)
        ensures
            r == self@.len(),
    {
        proof {
            use_type_invariant(self);
            lemma_pairs_map_len(self.entries@);
        }
        self.entries.len()
    }
}

impl Clone for Parameters {
    fn clone(&self) -> (r: Parameters)
        ensures
            r@ == self@,
    {
        proof {
            use_type_invariant(self);
        }
        let n = self.entries.len();
        let mut entries: Vec<(String, String)> = Vec::new();
        let mut i: usize = 0;
        while i < n
            invariant
                n == self.entries@.len(),
                0 <= i <= n,
                entries@ =~= self.entries@.subrange(0, i as int),
            decreases n - i,
        {
            let name = self.entries[i].0.clone();
            let value = self.entries[i].1.clone();
            entries.push((name, value));
            i = i + 1;
        }
        proof {
            assert(entries@ =~= self.entries@);
        }
        Parameters { entries }
    }
}

impl PartialEq for Parameters {
    fn eq(&self, other: &Parameters) -> (r: bool) {
        proof {
            use_type_invariant(self);
            use_type_invariant(other);
            lemma_pairs_map_len(self.entries@);
            lemma_pairs_map_len(other.entries@);
            lemma_pairs_map_lookup(self.entries@);
        }
        if self.entries.len() != other.entries.len() {
            return false;
        }
        let n = self.entries.len();
        let mut i: usize = 0;
        while i < n
            invariant
                n == self.entries@.len(),
                unique_names(self.entries@),
                0 <= i <= n,
                forall|j: int| 0 <= j < i ==> #[trigger] other@.contains_key(self.entries@[j].0@)
                    && other@[self.entries@[j].0@] == self.entries@[j].1@,
            decreases n - i,
        {
            proof {
                lemma_pairs_map_lookup(self.entries@);
            }
            match other.get(&self.entries[i].0) {
                Some(v) => {
                    if *v != self.entries[i].1 {
                        return false;
                    }
                },
                None => return false,
            }
            i = i + 1;
        }
        proof {
            assert(self@.dom().subset_of(other@.dom())) by {
                assert forall|k: Seq<char>| #[trigger] self@.dom().contains(k) implies other@.dom().contains(k) by {
                    let j = choose|j: int| 0 <= j < self.entries@.len() && (#[trigger] self.entries@[j]).0@ == k;
                    assert(other@.contains_key(self.entries@[j].0@));
                }
            }
            vstd::set_lib::lemma_subset_equality(self@.dom(), other@.dom());
            assert forall|k: Seq<char>| #[trigger] self@.contains_key(k) implies self@[k] == other@[k] by {
                let j = choose|j: int| 0 <= j < self.entries@.len() && (#[trigger] self.entries@[j]).0@ == k;
                assert(other@.contains_key(self.entries@[j].0@));
            }
            assert(self@ =~= other@);
        }
        true
    }
}

impl vstd::std_specs::cmp::PartialEqSpecImpl for Parameters {
    open spec fn obeys_eq_spec() -> bool {
        true
    }

    open spec fn eq_spec(&self, other: &Parameters) -> bool {
        self@ == other@
    }
}

impl Eq for Parameters {
}

proof fn lemma_pairs_map_len(s: Seq<(String, String)>)
    requires
        unique_names(s),
    ensures
        pairs_map(s).dom().finite(),
        pairs_map(s).len() == s.len(),
    decreases s.len(),
{
    if s.len() > 0 {
        let t = s.drop_last();
        assert(unique_names(t)) by {
            assert forall|i: int, j: int| 0 <= i < j < t.len() implies (#[trigger] t[i]).0@ != (
            #[trigger] t[j]).0@ by {
                assert(t[i] == s[i] && t[j] == s[j]);
            }
        }
        lemma_pairs_map_len(t);
        lemma_pairs_map_lookup(t);
        if pairs_map(t).contains_key(s.last().0@) {
            let i = choose|i: int| 0 <= i < t.len() && (#[trigger] t[i]).0@ == s.last().0@;
            assert(t[i] == s[i]);
            assert(s[s.len() - 1] == s.last());
        }
    }
}

} // verus!
