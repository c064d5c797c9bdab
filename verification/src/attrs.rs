//! The attributes of a shard: texts that are found by their names.

use vstd::prelude::*;

verus! {

/// A map from names to texts.
#[derive(Debug)]
pub struct Attrs {
    entries: Vec<(String, String)>,
}

/// The map that a list of entries stands for.
spec fn entries_map(entries: Seq<(String, String)>) -> Map<Seq<char>, Seq<char>>
    decreases entries.len(),
{
    if entries.len() == 0 {
        Map::empty()
    } else {
        entries_map(entries.drop_last()).insert(entries.last().0@, entries.last().1@)
    }
}

/// No name occurs twice.
spec fn names_differ(entries: Seq<(String, String)>) -> bool {
    forall|i: int, j: int|
        0 <= i < j < entries.len() ==> (#[trigger] entries[i]).0@ != (#[trigger] entries[j]).0@
}

proof fn lemma_lookup(entries: Seq<(String, String)>)
    requires
        names_differ(entries),
    ensures
        forall|i: int|
            0 <= i < entries.len() ==> entries_map(entries).dom().contains(
                (#[trigger] entries[i]).0@,
            ) && entries_map(entries)[entries[i].0@] == entries[i].1@,
        forall|name: Seq<char>|
            #![trigger entries_map(entries).dom().contains(name)]
            entries_map(entries).dom().contains(name) ==> exists|i: int|
                0 <= i < entries.len() && (#[trigger] entries[i]).0@ == name,
    decreases entries.len(),
{
    if entries.len() > 0 {
        let rest = entries.drop_last();
        assert forall|i: int, j: int| 0 <= i < j < rest.len() implies (#[trigger] rest[i]).0@ != (
        #[trigger] rest[j]).0@ by {
            assert(rest[i] == entries[i] && rest[j] == entries[j]);
        }
        lemma_lookup(rest);
        assert forall|i: int| 0 <= i < entries.len() implies entries_map(entries).dom().contains(
            (#[trigger] entries[i]).0@,
        ) && entries_map(entries)[entries[i].0@] == entries[i].1@ by {
            if i < rest.len() {
                assert(rest[i] == entries[i]);
            }
        }
        assert forall|name: Seq<char>|
            #![trigger entries_map(entries).dom().contains(name)]
            entries_map(entries).dom().contains(name) implies exists|i: int|
            0 <= i < entries.len() && (#[trigger] entries[i]).0@ == name by {
            if name == entries.last().0@ {
                assert(entries[entries.len() - 1].0@ == name);
            } else {
                assert(entries_map(rest).dom().contains(name));
                let i = choose|i: int| 0 <= i < rest.len() && (#[trigger] rest[i]).0@ == name;
                assert(entries[i].0@ == name);
            }
        }
    }
}

impl View for Attrs {
    type V = Map<Seq<char>, Seq<char>>;

    closed spec fn view(&self) -> Map<Seq<char>, Seq<char>> {
        entries_map(self.entries@)
    }
}

impl Clone for Attrs {
    fn clone(&self) -> (copy: Attrs)
        ensures
            copy@ == self@,
    {
        let mut entries: Vec<(String, String)> = Vec::new();
        for i in 0..self.entries.len()
            invariant
                entries@ == self.entries@.take(i as int),
        {
            entries.push((self.entries[i].0.clone(), self.entries[i].1.clone()));
            assert(entries@ =~= self.entries@.take(i + 1));
        }
        assert(entries@ =~= self.entries@);
        proof {
            use_type_invariant(self);
        }
        Attrs { entries }
    }
}

impl Attrs {
    #[verifier::type_invariant]
    spec fn inv(self) -> bool {
        names_differ(self.entries@)
    }

    /// A map without entries.
    pub fn new() -> (attrs: Attrs)
        ensures
            attrs@ == Map::<Seq<char>, Seq<char>>::empty(),
    {
        Attrs { entries: Vec::new() }
    }

    /// The place of the entry with the given name.
    fn find(&self, name: &String) -> (place: Option<usize>)
        ensures
            match place {
                Some(i) => i < self.entries@.len() && self.entries@[i as int].0@ == name@,
                None => !self@.dom().contains(name@),
            },
    {
        proof {
            use_type_invariant(self);
            lemma_lookup(self.entries@);
        }
        for i in 0..self.entries.len()
            invariant
                forall|j: int| 0 <= j < i ==> (#[trigger] self.entries@[j]).0@ != name@,
        {
            if self.entries[i].0 == *name {
                return Some(i);
            }
        }
        None
    }

    /// The text with the given name.
    pub fn get(&self, name: &String) -> (text: Option<&String>)
        ensures
            match text {
                Some(text) => self@.dom().contains(name@) && text@ == self@[name@],
                None => !self@.dom().contains(name@),
            },
    {
        proof {
            use_type_invariant(self);
            lemma_lookup(self.entries@);
        }
        match self.find(name) {
            Some(i) => Some(&self.entries[i].1),
            None => None,
        }
    }

    /// Sets the text with the given name.
    pub fn insert(&mut self, name: String, text: String)
        ensures
            final(self)@ == old(self)@.insert(name@, text@),
    {
        proof {
            use_type_invariant(&*self);
            lemma_lookup(self.entries@);
        }
        let place = self.find(&name);
        let mut entries: Vec<(String, String)> = Vec::new();
        std::mem::swap(&mut entries, &mut self.entries);
        let ghost before = entries@;
        match place {
            Some(i) => {
                entries.set(i, (name, text));
                assert forall|j: int, k: int| 0 <= j < k < entries@.len() implies (
                #[trigger] entries@[j]).0@ != (#[trigger] entries@[k]).0@ by {
                    assert(before[j].0@ != before[k].0@);
                }
            },
            None => {
                entries.push((name, text));
            },
        }
        proof {
            lemma_lookup(entries@);
            let after = entries_map(entries@);
            let expected = entries_map(before).insert(name@, text@);
            assert forall|n: Seq<char>| after.dom().contains(n) == expected.dom().contains(n) by {
                if after.dom().contains(n) {
                    let i = choose|i: int|
                        0 <= i < entries@.len() && (#[trigger] entries@[i]).0@ == n;
                    if n != name@ {
                        assert(before[i].0@ == n);
                    }
                }
                if expected.dom().contains(n) {
                    if n == name@ {
                        let i: int = match place {
                            Some(i) => i as int,
                            None => before.len() as int,
                        };
                        assert(entries@[i].0@ == n);
                    } else {
                        let i = choose|i: int|
                            0 <= i < before.len() && (#[trigger] before[i]).0@ == n;
                        assert(entries@[i] == before[i]);
                    }
                }
            }
            assert forall|n: Seq<char>| after.dom().contains(n) implies after[n] == expected[n] by {
                let i = choose|i: int| 0 <= i < entries@.len() && (#[trigger] entries@[i]).0@ == n;
                if n != name@ {
                    assert(before[i] == entries@[i]);
                }
            }
            assert(after =~= expected);
        }
        self.entries = entries;
    }

    /// The entries, each of them once.
    pub fn entries(&self) -> (entries: &Vec<(String, String)>)
        ensures
            forall|i: int|
                0 <= i < entries@.len() ==> self@.dom().contains((#[trigger] entries@[i]).0@)
                    && self@[entries@[i].0@] == entries@[i].1@,
            forall|name: Seq<char>|
                #![trigger self@.dom().contains(name)]
                self@.dom().contains(name) ==> exists|i: int|
                    0 <= i < entries@.len() && (#[trigger] entries@[i]).0@ == name,
            forall|i: int, j: int|
                0 <= i < j < entries@.len() ==> (#[trigger] entries@[i]).0@ != (
                #[trigger] entries@[j]).0@,
    {
        proof {
            use_type_invariant(self);
            lemma_lookup(self.entries@);
        }
        &self.entries
    }
}

} // verus!
