//! A table of definitions: names bound to URLs, where a later binding of a
//! name replaces an earlier one.
use vstd::prelude::*;

verus! {

/// Definitions of names (link identifiers, image alt texts) as URLs.
///
/// The table keeps its bindings in the order they were made; its view is the
/// map that gives each name its latest binding.
pub struct DefTable {
    entries: Vec<(String, String)>,
}

/// The map of names to URLs that a sequence of bindings, made in order, leaves.
pub open spec fn bindings_map(s: Seq<(String, String)>) -> Map<Seq<char>, Seq<char>>
    decreases s.len(),
{
    if s.len() == 0 {
        Map::empty()
    } else {
        bindings_map(s.drop_last()).insert(s.last().0@, s.last().1@)
    }
}

/// Bindings after position `i` that do not name `k` leave the binding of `k`
/// as the first `i` bindings made it.
proof fn lemma_bindings_suffix(s: Seq<(String, String)>, i: int, k: Seq<char>)
    requires
        0 <= i <= s.len(),
        forall|j: int| i <= j < s.len() ==> (#[trigger] s[j]).0@ != k,
    ensures
        bindings_map(s).contains_key(k) == bindings_map(s.take(i)).contains_key(k),
        bindings_map(s).contains_key(k) ==> bindings_map(s)[k] == bindings_map(s.take(i))[k],
    decreases s.len(),
{
    if s.len() > i {
        let t = s.drop_last();
        assert forall|j: int| i <= j < t.len() implies (#[trigger] t[j]).0@ != k by {
            assert(t[j] == s[j]);
        }
        lemma_bindings_suffix(t, i, k);
        assert(t.take(i) =~= s.take(i));
        assert(s[s.len() - 1].0@ != k);
    } else {
        assert(s.take(i) =~= s);
    }
}

impl View for DefTable {
    type V = Map<Seq<char>, Seq<char>>;

    closed spec fn view(&self) -> Map<Seq<char>, Seq<char>> {
        bindings_map(self.entries@)
    }
}

impl DefTable {
    /// A table with no bindings.
    pub fn new() -> (r: DefTable)
        ensures
            r@ == Map::<Seq<char>, Seq<char>>::empty(),
    {
        DefTable { entries: Vec::new() }
    }

    /// A table with the same bindings.
    pub fn clone_table(&self) -> (r: DefTable)
        ensures
            r@ == self@,
    {
        let mut entries: Vec<(String, String)> = Vec::new();
        let mut i: usize = 0;
        while i < self.entries.len()
            invariant
                i <= self.entries@.len(),
                entries@ == self.entries@.take(i as int),
            decreases self.entries@.len() - i,
        {
            let e = &self.entries[i];
            entries.push((e.0.clone(), e.1.clone()));
            assert(entries@ =~= self.entries@.take(i + 1));
            i += 1;
        }
        assert(self.entries@.take(self.entries@.len() as int) =~= self.entries@);
        DefTable { entries }
    }

    /// Binds `name` to `url`, replacing any earlier binding of `name`.
    pub fn insert(&mut self, name: String, url: String)
        ensures
            final(self)@ == old(self)@.insert(name@, url@),
    {
        let ghost before = self.entries@;
        self.entries.push((name, url));
        assert(self.entries@.drop_last() =~= before);
    }

    /// The URL bound to `name`, if any.
    pub fn get(&self, name: &String) -> (r: Option<&String>)
        ensures
            r is Some <==> self@.contains_key(name@),
            r matches Some(u) ==> self@[name@] == u@,
    {
        let mut i = self.entries.len();
        while i > 0
            invariant
                i <= self.entries@.len(),
                forall|j: int| i <= j < self.entries@.len() ==> (#[trigger] self.entries@[j]).0@ != name@,
            decreases i,
        {
            let entry = &self.entries[i - 1];
            if entry.0 == *name {
                proof {
                    let s = self.entries@;
                    lemma_bindings_suffix(s, i as int, name@);
                    assert(s.take(i as int).drop_last() =~= s.take(i - 1));
                    assert(s.take(i as int).last() == s[i - 1]);
                }
                return Some(&entry.1);
            }
            i -= 1;
        }
        proof {
            lemma_bindings_suffix(self.entries@, 0, name@);
            assert(self.entries@.take(0) =~= Seq::<(String, String)>::empty());
        }
        None
    }
}

} // verus!
