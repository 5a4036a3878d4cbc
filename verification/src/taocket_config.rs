//! The parts of the configuration that are rules rather than files: the
//! table that binds key combinations to functions, and what makes a
//! configuration valid.
use vstd::prelude::*;
use vstd::string::StringExecFns;

verus! {

/// The hotkey bindings of a configuration: for each key combination, as it
/// is written, the name of the function bound to it.
#[derive(Debug)]
pub struct KeyBindings {
    entries: Vec<(String, String)>,
}

impl KeyBindings {
    /// No key combination is entered twice.
    #[verifier::type_invariant]
    spec fn wf(&self) -> bool {
        self.distinct()
    }

    closed spec fn distinct(&self) -> bool {
        forall|i: int, j: int|
            0 <= i < j < self.entries@.len() ==> (#[trigger] self.entries@[i]).0@ != (
            #[trigger] self.entries@[j]).0@
    }

    /// Whether the entry at `i` is the one of `key`.
    closed spec fn at(&self, key: Seq<char>, i: int) -> bool {
        0 <= i < self.entries@.len() && self.entries@[i].0@ == key
    }

    /// Whether `key` is bound.
    pub closed spec fn binds(&self, key: Seq<char>) -> bool {
        exists|i: int| self.at(key, i)
    }

    /// The function that `key` is bound to.
    pub closed spec fn target(&self, key: Seq<char>) -> Seq<char> {
        self.entries@[choose|i: int| self.at(key, i)].1@
    }

    proof fn lemma_at(&self, key: Seq<char>, i: int)
        requires
            self.distinct(),
            self.at(key, i),
        ensures
            self.binds(key),
            self.target(key) == self.entries@[i].1@,
    {
    }
}

impl View for KeyBindings {
    type V = Map<Seq<char>, Seq<char>>;

    closed spec fn view(&self) -> Map<Seq<char>, Seq<char>> {
        Map::new(|key: Seq<char>| self.binds(key), |key: Seq<char>| self.target(key))
    }
}

impl Clone for KeyBindings {
    fn clone(&self) -> (copy: Self)
        ensures
            copy@ == self@,
    {
        proof {
            use_type_invariant(self);
        }
        let mut entries: Vec<(String, String)> = Vec::new();
        let mut i: usize = 0;
        while i < self.entries.len()
            invariant
                i <= self.entries@.len(),
                entries@ == self.entries@.take(i as int),
            decreases self.entries@.len() - i,
        {
            entries.push((self.entries[i].0.clone(), self.entries[i].1.clone()));
            i = i + 1;
        }
        let copy = KeyBindings { entries };
        proof {
            assert(forall|key: Seq<char>, i: int| copy.at(key, i) == self.at(key, i));
            assert forall|key: Seq<char>| #[trigger]
                copy.binds(key) == self.binds(key) && (self.binds(key) ==> copy.target(key)
                    == self.target(key)) by {
                if self.binds(key) {
                    let k = choose|k: int| self.at(key, k);
                    self.lemma_at(key, k);
                    copy.lemma_at(key, k);
                }
            }
        }
        copy
    }
}

impl PartialEq for KeyBindings {
    /// Two tables are equal if they bind the same keys to the same functions.
    fn eq(&self, other: &Self) -> (same: bool) {
        proof {
            use_type_invariant(self);
            use_type_invariant(other);
            self.lemma_len(self.entries@.len() as int);
            other.lemma_len(other.entries@.len() as int);
            assert(self.prefix_keys(self.entries@.len() as int) =~= self@.dom());
            assert(other.prefix_keys(other.entries@.len() as int) =~= other@.dom());
        }
        if self.entries.len() != other.entries.len() {
            return false;
        }
        let mut i: usize = 0;
        while i < self.entries.len()
            invariant
                i <= self.entries@.len(),
                self.distinct(),
                forall|k: int|
                    0 <= k < i ==> other@.contains_key((#[trigger] self.entries@[k]).0@)
                        && other@[self.entries@[k].0@] == self.entries@[k].1@,
            decreases self.entries@.len() - i,
        {
            proof {
                self.lemma_at(self.entries@[i as int].0@, i as int);
            }
            match other.get_hotkey(self.entries[i].0.as_str()) {
                Some(func) => {
                    if !(*func.as_str() == *self.entries[i].1.as_str()) {
                        return false;
                    }
                },
                None => {
                    return false;
                },
            }
            i = i + 1;
        }
        proof {
            assert forall|key: Seq<char>| self@.contains_key(key) implies other@.contains_key(key)
                && other@[key] == self@[key] by {
                let k = choose|k: int| self.at(key, k);
                self.lemma_at(key, k);
            }
            vstd::set_lib::lemma_subset_equality(self@.dom(), other@.dom());
            assert(self@ =~= other@);
        }
        true
    }
}

impl vstd::std_specs::cmp::PartialEqSpecImpl for KeyBindings {
    open spec fn obeys_eq_spec() -> bool {
        true
    }

    open spec fn eq_spec(&self, other: &Self) -> bool {
        self@ == other@
    }
}

impl Default for KeyBindings {
    fn default() -> (bindings: Self)
        ensures
            bindings@ == Map::<Seq<char>, Seq<char>>::empty(),
    {
        KeyBindings::new()
    }
}

impl KeyBindings {
    /// No bindings.
    pub fn new() -> (bindings: Self)
        ensures
            bindings@ == Map::<Seq<char>, Seq<char>>::empty(),
    {
        KeyBindings { entries: Vec::new() }
    }

    /// The number of bindings.
    pub fn len(&self) -> (count: usize)
        ensures
            count == self@.len(),
    {
        proof {
            use_type_invariant(self);
            self.lemma_len(self.entries@.len() as int);
            assert(self.prefix_keys(self.entries@.len() as int) =~= self@.dom());
        }
        self.entries.len()
    }

    /// The keys of the first `n` entries.
    closed spec fn prefix_keys(&self, n: int) -> Set<Seq<char>> {
        Set::new(|key: Seq<char>| exists|i: int| 0 <= i < n && self.at(key, i))
    }

    proof fn lemma_len(&self, n: int)
        requires
            self.distinct(),
            0 <= n <= self.entries@.len(),
        ensures
            self.prefix_keys(n).finite(),
            self.prefix_keys(n).len() == n,
        decreases n,
    {
        if n == 0 {
            assert(self.prefix_keys(0) =~= Set::empty());
        } else {
            self.lemma_len(n - 1);
            let key = self.entries@[n - 1].0@;
            assert(self.at(key, n - 1));
            assert(!self.prefix_keys(n - 1).contains(key));
            assert(self.prefix_keys(n) =~= self.prefix_keys(n - 1).insert(key));
        }
    }

    fn find(&self, key: &str) -> (place: Option<usize>)
        ensures
            place matches Some(i) ==> self.at(key@, i as int),
            place is None ==> !self.binds(key@),
    {
        let mut i: usize = 0;
        while i < self.entries.len()
            invariant
                i <= self.entries@.len(),
                forall|k: int| 0 <= k < i ==> !self.at(key@, k),
            decreases self.entries@.len() - i,
        {
            if *self.entries[i].0.as_str() == *key {
                return Some(i);
            }
            i = i + 1;
        }
        None
    }

    /// Binds `key` to `func`, in place of the function that it was bound to
    /// before, which is returned.
    pub fn add_hotkey(&mut self, key: &str, func: &str) -> (previous: Option<String>)
        ensures
            final(self)@ == old(self)@.insert(key@, func@),
            previous is Some <==> old(self)@.contains_key(key@),
            previous matches Some(before) ==> before@ == old(self)@[key@],
    {
        proof {
            use_type_invariant(&*self);
        }
        let ghost before = *self;
        let place = self.find(key);
        let mut entries: Vec<(String, String)> = Vec::new();
        core::mem::swap(&mut self.entries, &mut entries);
        let previous = match place {
            Some(i) => {
                let (name, old_func) = entries.remove(i);
                entries.insert(i, (name, String::from_str(func)));
                Some(old_func)
            },
            None => {
                entries.push((String::from_str(key), String::from_str(func)));
                None
            },
        };
        let ghost after = KeyBindings { entries };
        proof {
            match place {
                Some(i) => {
                    before.lemma_at(key@, i as int);
                    assert(forall|k: int|
                        0 <= k < entries@.len() ==> (#[trigger] entries@[k]).0@
                            == before.entries@[k].0@);
                },
                None => {
                    assert forall|a: int, b: int| 0 <= a < b < entries@.len() implies (
                    #[trigger] entries@[a]).0@ != (#[trigger] entries@[b]).0@ by {
                        if b == entries@.len() - 1 {
                            assert(!before.at(key@, a));
                        }
                    }
                },
            }
            assert forall|name: Seq<char>| #[trigger]
                after.binds(name) == (before.binds(name) || name == key@) && (after.binds(name)
                    ==> after.target(name) == (if name == key@ {
                    func@
                } else {
                    before.target(name)
                })) by {
                if before.binds(name) {
                    let k = choose|k: int| before.at(name, k);
                    before.lemma_at(name, k);
                    after.lemma_at(name, k);
                }
                if name == key@ {
                    let k = match place {
                        Some(i) => i as int,
                        None => entries@.len() - 1,
                    };
                    after.lemma_at(name, k);
                }
                if after.binds(name) {
                    let k = choose|k: int| after.at(name, k);
                    after.lemma_at(name, k);
                    if name != key@ {
                        before.lemma_at(name, k);
                    }
                }
            }
        }
        self.entries = entries;
        previous
    }

    /// Takes the binding of `key` out and returns the function that it was
    /// bound to. A key that is not bound changes nothing.
    pub fn remove_hotkey(&mut self, key: &str) -> (removed: Option<String>)
        ensures
            final(self)@ == old(self)@.remove(key@),
            removed is Some <==> old(self)@.contains_key(key@),
            removed matches Some(before) ==> before@ == old(self)@[key@],
    {
        proof {
            use_type_invariant(&*self);
        }
        let ghost before = *self;
        let place = self.find(key);
        match place {
            Some(i) => {
                let mut entries: Vec<(String, String)> = Vec::new();
                core::mem::swap(&mut self.entries, &mut entries);
                let (_, func) = entries.remove(i);
                let ghost after = KeyBindings { entries };
                proof {
                    before.lemma_at(key@, i as int);
                    assert(forall|k: int|
                        0 <= k < entries@.len() ==> #[trigger] entries@[k] == before.entries@[if k
                            < i {
                            k
                        } else {
                            k + 1
                        }]);
                    assert forall|name: Seq<char>| #[trigger]
                        after.binds(name) == (before.binds(name) && name != key@) && (after.binds(
                            name,
                        ) ==> after.target(name) == before.target(name)) by {
                        if before.binds(name) && name != key@ {
                            let k = choose|k: int| before.at(name, k);
                            before.lemma_at(name, k);
                            let moved = if k < i {
                                k
                            } else {
                                k - 1
                            };
                            after.lemma_at(name, moved);
                        }
                        if after.binds(name) {
                            let k = choose|k: int| after.at(name, k);
                            after.lemma_at(name, k);
                            let origin = if k < i {
                                k
                            } else {
                                k + 1
                            };
                            before.lemma_at(name, origin);
                        }
                    }
                }
                self.entries = entries;
                Some(func)
            },
            None => None,
        }
    }

    /// The function that `key` is bound to.
    pub fn get_hotkey(&self, key: &str) -> (func: Option<&String>)
        ensures
            func is Some <==> self@.contains_key(key@),
            func matches Some(bound) ==> bound@ == self@[key@],
    {
        proof {
            use_type_invariant(self);
        }
        match self.find(key) {
            Some(i) => {
                proof {
                    self.lemma_at(key@, i as int);
                }
                Some(&self.entries[i].1)
            },
            None => None,
        }
    }

    /// The bindings as pairs of key and function, for writing them out.
    pub fn pairs(&self) -> (pairs: &Vec<(String, String)>)
        ensures
            pairs@.len() == self@.len(),
            forall|i: int|
                0 <= i < pairs@.len() ==> self@.contains_key((#[trigger] pairs@[i]).0@)
                    && self@[pairs@[i].0@] == pairs@[i].1@,
    {
        proof {
            use_type_invariant(self);
            self.lemma_len(self.entries@.len() as int);
            assert(self.prefix_keys(self.entries@.len() as int) =~= self@.dom());
            assert forall|i: int| 0 <= i < self.entries@.len() implies self@.contains_key(
                (#[trigger] self.entries@[i]).0@,
            ) && self@[self.entries@[i].0@] == self.entries@[i].1@ by {
                self.lemma_at(self.entries@[i].0@, i);
            }
        }
        &self.entries
    }
}

/// What is wrong with a configuration, given whether its window size is
/// positive and what its development address is.
pub open spec fn problems(size_is_positive: bool, dev_url: Seq<char>) -> Seq<Seq<char>> {
    (if size_is_positive {
        Seq::<Seq<char>>::empty()
    } else {
        seq!["Window size must be positive"@]
    }) + (if dev_url.len() == 0 {
        seq!["dev_url cannot be empty"@]
    } else {
        Seq::<Seq<char>>::empty()
    })
}

/// Checks a configuration. It is valid if its window size is positive and
/// its development address is not empty; if it is not valid, everything that
/// is wrong with it is listed.
pub fn validate(size_is_positive: bool, dev_url: &str) -> (verdict: Result<(), Vec<String>>)
    ensures
        verdict is Ok <==> size_is_positive && dev_url@.len() > 0,
        verdict matches Err(errors) ==> errors.deep_view() == problems(size_is_positive, dev_url@),
{
    let mut errors: Vec<String> = Vec::new();
    if !size_is_positive {
        errors.push(String::from_str("Window size must be positive"));
    }
    if dev_url.is_empty() {
        errors.push(String::from_str("dev_url cannot be empty"));
    }
    if errors.len() == 0 {
        Ok(())
    } else {
        Err(errors)
    }
}

} // verus!
