//! A set of names, kept as a list in which no name occurs twice.

use vstd::prelude::*;
use vstd::std_specs::cmp::PartialEqSpecImpl;

verus! {

/// The character sequences of a list of strings, in order.
pub open spec fn texts(names: Seq<String>) -> Seq<Seq<char>> {
    names.map_values(|s: String| s@)
}

/// Taking one entry out of a list without repeats leaves a list without
/// repeats, whose names are the old ones less the name taken out.
proof fn lemma_remove_at(names: Seq<String>, i: int)
    requires
        0 <= i < names.len(),
        texts(names).no_duplicates(),
    ensures
        texts(names.remove(i)).no_duplicates(),
        texts(names.remove(i)).to_set() == texts(names).to_set().remove(names[i]@),
{
    let t = texts(names);
    let u = texts(names.remove(i));
    assert(u =~= t.remove(i));
    assert forall|a: int, b: int| 0 <= a < u.len() && 0 <= b < u.len() && a != b implies u[a]
        != u[b] by {
        let a2 = if a < i { a } else { a + 1 };
        let b2 = if b < i { b } else { b + 1 };
        assert(u[a] == t[a2]);
        assert(u[b] == t[b2]);
    }
    assert forall|x: Seq<char>| u.to_set().contains(x) <==> t.to_set().remove(t[i]).contains(
        x,
    ) by {
        if u.contains(x) {
            let a = choose|a: int| 0 <= a < u.len() && u[a] == x;
            let a2 = if a < i { a } else { a + 1 };
            assert(t[a2] == x);
            assert(t.contains(x));
        }
        if t.contains(x) && x != t[i] {
            let a = choose|a: int| 0 <= a < t.len() && t[a] == x;
            let a3 = if a < i { a } else { a - 1 };
            assert(u[a3] == x);
            assert(u.contains(x));
        }
    }
    assert(u.to_set() =~= t.to_set().remove(t[i]));
}

/// The first place in `names` that holds the characters of `key`, if any.
fn position(names: &Vec<String>, key: &String) -> (r: Option<usize>)
    ensures
        match r {
            Some(i) => i < names@.len() && texts(names@)[i as int] == key@,
            None => !texts(names@).contains(key@),
        },
{
    let mut i: usize = 0;
    while i < names.len()
        invariant
            i <= names@.len(),
            forall|j: int| 0 <= j < i ==> texts(names@)[j] != key@,
        decreases names@.len() - i,
    {
        if names[i] == *key {
            return Some(i);
        }
        i += 1;
    }
    None
}

/// A copy of a list of strings, entry by entry.
fn copy_of(names: &Vec<String>) -> (r: Vec<String>)
    ensures
        r@ == names@,
{
    let mut out: Vec<String> = Vec::new();
    let mut i: usize = 0;
    while i < names.len()
        invariant
            i <= names@.len(),
            out@ == names@.subrange(0, i as int),
        decreases names@.len() - i,
    {
        let s = names[i].clone();
        out.push(s);
        assert(out@ =~= names@.subrange(0, i + 1));
        i += 1;
    }
    assert(out@ =~= names@);
    out
}

/// A finite set of names. Its view is the set of the names' character
/// sequences; the order in which names were put in is of no account.
#[derive(Debug)]
pub struct NameSet {
    names: Vec<String>,
}

impl View for NameSet {
    type V = Set<Seq<char>>;

    closed spec fn view(&self) -> Set<Seq<char>> {
        texts(self.names@).to_set()
    }
}

impl NameSet {
    /// No name occurs twice in the list.
    #[verifier::type_invariant]
    spec fn distinct(self) -> bool {
        texts(self.names@).no_duplicates()
    }

    /// The empty set.
    pub fn new() -> (s: Self)
        ensures
            s@ == Set::<Seq<char>>::empty(),
    {
        let s = NameSet { names: Vec::new() };
        assert(s@ =~= Set::<Seq<char>>::empty());
        s
    }

    /// The number of names in the set.
    pub fn len(&self) -> (n: usize)
        ensures
            n == self@.len(),
            self@.finite(),
    {
        proof {
            use_type_invariant(self);
            texts(self.names@).unique_seq_to_set();
        }
        self.names.len()
    }

    /// Whether the set holds no name.
    pub fn is_empty(&self) -> (b: bool)
        ensures
            b == (self@ == Set::<Seq<char>>::empty()),
    {
        let b = self.names.len() == 0;
        proof {
            let t = texts(self.names@);
            if b {
                assert(self@ =~= Set::<Seq<char>>::empty());
            } else {
                assert(t.contains(t[0]));
                assert(self@.contains(t[0]));
            }
        }
        b
    }

    /// Whether `name` is in the set.
    pub fn contains(&self, name: &str) -> (b: bool)
        ensures
            b == self@.contains(name@),
    {
        let key = String::from_str(name);
        let r = position(&self.names, &key);
        proof {
            let t = texts(self.names@);
            if let Some(i) = r {
                assert(t[i as int] == name@);
                assert(t.contains(name@));
            }
        }
        r.is_some()
    }

    /// Puts `name` into the set. Returns whether it was new to the set.
    pub fn insert(&mut self, name: String) -> (fresh: bool)
        ensures
            final(self)@ == old(self)@.insert(name@),
            fresh == !old(self)@.contains(name@),
    {
        proof {
            use_type_invariant(&*self);
        }
        let r = position(&self.names, &name);
        match r {
            Some(i) => {
                proof {
                    let t = texts(self.names@);
                    assert(t[i as int] == name@);
                    assert(t.contains(name@));
                    assert(self@.insert(name@) =~= self@);
                }
                false
            },
            None => {
                proof {
                    let t = texts(self.names@);
                    assert(texts(self.names@.push(name)) =~= t.push(name@));
                    t.lemma_push_to_set_commute(name@);
                    assert forall|a: int, b: int|
                        0 <= a < t.len() + 1 && 0 <= b < t.len() + 1 && a != b implies t.push(
                        name@,
                    )[a] != t.push(name@)[b] by {
                        if a < t.len() {
                            assert(t.contains(t[a]));
                        }
                        if b < t.len() {
                            assert(t.contains(t[b]));
                        }
                    }
                }
                let mut names: Vec<String> = Vec::new();
                std::mem::swap(&mut names, &mut self.names);
                names.push(name);
                self.names = names;
                true
            },
        }
    }

    /// Takes `name` out of the set. Returns whether it was in the set.
    pub fn remove(&mut self, name: &str) -> (present: bool)
        ensures
            final(self)@ == old(self)@.remove(name@),
            present == old(self)@.contains(name@),
    {
        proof {
            use_type_invariant(&*self);
        }
        let key = String::from_str(name);
        let r = position(&self.names, &key);
        match r {
            Some(i) => {
                proof {
                    let t = texts(self.names@);
                    assert(t[i as int] == name@);
                    assert(t.contains(name@));
                    lemma_remove_at(self.names@, i as int);
                }
                let mut names: Vec<String> = Vec::new();
                std::mem::swap(&mut names, &mut self.names);
                let _ = names.remove(i);
                self.names = names;
                true
            },
            None => {
                proof {
                    assert(self@.remove(name@) =~= self@);
                }
                false
            },
        }
    }

    /// Empties the set.
    pub fn clear(&mut self)
        ensures
            final(self)@ == Set::<Seq<char>>::empty(),
    {
        self.names = Vec::new();
        assert(self@ =~= Set::<Seq<char>>::empty());
    }

    /// The names of the set, each once, in no particular order.
    pub fn names(&self) -> (v: Vec<String>)
        ensures
            texts(v@).to_set() == self@,
            texts(v@).no_duplicates(),
            v@.len() == self@.len(),
    {
        proof {
            use_type_invariant(self);
            texts(self.names@).unique_seq_to_set();
        }
        copy_of(&self.names)
    }
}

impl Clone for NameSet {
    fn clone(&self) -> (r: Self)
        ensures
            r@ == self@,
    {
        proof {
            use_type_invariant(self);
        }
        NameSet { names: copy_of(&self.names) }
    }
}

/// A finite set that lies within another of the same size is that other.
proof fn lemma_same_size_subset(a: Set<Seq<char>>, b: Set<Seq<char>>)
    requires
        a.subset_of(b),
        b.finite(),
        a.len() == b.len(),
    ensures
        a == b,
{
    if a != b {
        assert(!(a =~= b));
        let x = choose|x: Seq<char>| a.contains(x) != b.contains(x);
        a.lemma_subset_not_in_lt(b, x);
    }
}

impl PartialEq for NameSet {
    /// Two sets are equal where they hold the same names.
    fn eq(&self, other: &Self) -> (b: bool) {
        proof {
            use_type_invariant(self);
            use_type_invariant(other);
            texts(self.names@).unique_seq_to_set();
            texts(other.names@).unique_seq_to_set();
        }
        if self.names.len() != other.names.len() {
            return false;
        }
        let mut i: usize = 0;
        while i < self.names.len()
            invariant
                i <= self.names@.len(),
                forall|j: int| 0 <= j < i ==> other@.contains(#[trigger] texts(self.names@)[j]),
            decreases self.names@.len() - i,
        {
            let r = position(&other.names, &self.names[i]);
            let ghost t = texts(self.names@);
            let ghost u = texts(other.names@);
            if r.is_none() {
                proof {
                    assert(t.contains(t[i as int]));
                    assert(self@.contains(t[i as int]));
                    assert(!other@.contains(t[i as int]));
                }
                return false;
            }
            proof {
                assert(u[r.unwrap() as int] == t[i as int]);
                assert(u.contains(t[i as int]));
            }
            i += 1;
        }
        proof {
            let t = texts(self.names@);
            assert forall|x: Seq<char>| self@.contains(x) implies other@.contains(x) by {
                let j = choose|j: int| 0 <= j < t.len() && t[j] == x;
                assert(other@.contains(t[j]));
            }
            lemma_same_size_subset(self@, other@);
        }
        true
    }
}

impl PartialEqSpecImpl for NameSet {
    open spec fn obeys_eq_spec() -> bool {
        true
    }

    open spec fn eq_spec(&self, other: &NameSet) -> bool {
        self@ == other@
    }
}

impl Eq for NameSet {

}

} // verus!
