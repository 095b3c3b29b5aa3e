//! A map from action names to key bindings, kept as a list of distinct names.
use vstd::prelude::*;
use crate::text::{copy_str, copy_strings, str_eq};

verus! {

/// The abstract value of an `Action`: the keys that trigger it and the tab
/// specification (`"any"` or a comma-separated list of tab names).
pub struct ActionView {
    pub keys: Seq<Seq<char>>,
    pub tab: Seq<char>,
}

/// A key-bound action.
#[derive(Debug, Clone)]
pub struct Action {
    pub keys: Vec<String>,
    pub tab: String,
}

/// The characters of each string of a list.
pub open spec fn strs(v: Seq<String>) -> Seq<Seq<char>> {
    v.map_values(|s: String| s@)
}

impl View for Action {
    type V = ActionView;

    open spec fn view(&self) -> ActionView {
        ActionView { keys: strs(self.keys@), tab: self.tab@ }
    }
}

impl Action {
    /// An action bound to `keys` on `tab`.
    pub fn new(keys: Vec<String>, tab: String) -> (res: Action)
        ensures
            res.keys == keys,
            res.tab == tab,
    {
        Action { keys, tab }
    }

    /// A copy of this action with the same keys and tab.
    pub fn copy(&self) -> (res: Action)
        ensures
            res@ == self@,
    {
        Action { keys: copy_strings(&self.keys), tab: copy_str(self.tab.as_str()) }
    }
}

/// Named actions; each name occurs once.
pub struct ActionMap {
    entries: Vec<(String, Action)>,
}

/// Index of the entry named `k` among `names`.
pub open spec fn pos_of(names: Seq<Seq<char>>, k: Seq<char>) -> int {
    choose|i: int| 0 <= i < names.len() && names[i] == k
}

impl ActionMap {
    /// The names of the entries, in storage order.
    pub closed spec fn names(&self) -> Seq<Seq<char>> {
        self.entries@.map_values(|e: (String, Action)| e.0@)
    }

    /// The action of the entry at position `i`.
    pub closed spec fn action_at(&self, i: int) -> ActionView {
        self.entries@[i].1@
    }

    /// The number of entries.
    pub closed spec fn size(&self) -> nat {
        self.entries@.len()
    }

    #[verifier::type_invariant]
    closed spec fn names_distinct(&self) -> bool {
        self.names().no_duplicates()
    }

    /// The positions of a map with distinct names enumerate its domain.
    proof fn lemma_positions(&self)
        requires
            self.names().no_duplicates(),
        ensures
            self.names().len() == self.size(),
            self.names().no_duplicates(),
            forall|i: int|
                0 <= i < self.size() ==> #[trigger] self@.dom().contains(self.names()[i])
                    && self@[self.names()[i]] == self.action_at(i),
            forall|k: Seq<char>| #[trigger]
                self@.dom().contains(k) ==> exists|i: int|
                    0 <= i < self.size() && self.names()[i] == k,
            self@.dom().finite(),
    {
        assert forall|i: int| 0 <= i < self.size() implies #[trigger] self@.dom().contains(
            self.names()[i],
        ) && self@[self.names()[i]] == self.action_at(i) by {
            self.lemma_view_at(i);
        }
        assert(self@.dom() =~= self.names().to_set());
        vstd::seq_lib::seq_to_set_is_finite(self.names());
    }

    proof fn lemma_view_at(&self, i: int)
        requires
            self.names().no_duplicates(),
            0 <= i < self.size(),
        ensures
            self@.dom().contains(self.names()[i]),
            self@[self.names()[i]] == self.action_at(i),
    {
        let k = self.names()[i];
        assert(self.names().contains(k));
        let j = pos_of(self.names(), k);
        assert(j == i);
    }
}

impl View for ActionMap {
    type V = Map<Seq<char>, ActionView>;

    closed spec fn view(&self) -> Map<Seq<char>, ActionView> {
        Map::new(
            |k: Seq<char>| self.names().contains(k),
            |k: Seq<char>| self.entries@[pos_of(self.names(), k)].1@,
        )
    }
}

impl ActionMap {
    /// An empty map.
    pub fn new() -> (res: ActionMap)
        ensures
            res@ == Map::<Seq<char>, ActionView>::empty(),
    {
        let res = ActionMap { entries: Vec::new() };
        assert(res@ =~= Map::<Seq<char>, ActionView>::empty());
        res
    }

    /// The number of named actions.
    pub fn len(&self) -> (n: usize)
        ensures
            n == self@.len(),
            n == self.size(),
    {
        proof {
            use_type_invariant(self);
            self.lemma_positions();
            self.names().unique_seq_to_set();
            assert(self@.dom() =~= self.names().to_set());
        }
        self.entries.len()
    }

    /// The entries in storage order.
    pub fn entries(&self) -> (res: &Vec<(String, Action)>)
        ensures
            res.len() == self.size(),
            forall|i: int|
                0 <= i < res.len() ==> #[trigger] res@[i].0@ == self.names()[i] && res@[i].1@
                    == self.action_at(i),
            self.names().len() == self.size(),
            self.names().no_duplicates(),
            forall|i: int|
                0 <= i < self.size() ==> #[trigger] self@.dom().contains(self.names()[i])
                    && self@[self.names()[i]] == self.action_at(i),
            forall|k: Seq<char>| #[trigger]
                self@.dom().contains(k) ==> exists|i: int|
                    0 <= i < self.size() && self.names()[i] == k,
            self@.dom().finite(),
    {
        proof {
            use_type_invariant(self);
            self.lemma_positions();
        }
        &self.entries
    }

    /// Position of the entry named `name`.
    fn find(&self, name: &str) -> (res: Option<usize>)
        ensures
            match res {
                Some(i) => i < self.size() && self.names()[i as int] == name@,
                None => !self@.dom().contains(name@),
            },
    {
        let mut i: usize = 0;
        while i < self.entries.len()
            invariant
                i <= self.entries.len(),
                forall|j: int| 0 <= j < i ==> self.names()[j] != name@,
            decreases self.entries.len() - i,
        {
            if str_eq(self.entries[i].0.as_str(), name) {
                return Some(i);
            }
            i = i + 1;
        }
        None
    }

    /// Whether an action named `name` exists.
    pub fn contains_key(&self, name: &str) -> (res: bool)
        ensures
            res == self@.dom().contains(name@),
    {
        proof {
            use_type_invariant(self);
            self.lemma_positions();
        }
        self.find(name).is_some()
    }

    /// The action named `name`, if any.
    pub fn get(&self, name: &str) -> (res: Option<&Action>)
        ensures
            res.is_some() == self@.dom().contains(name@),
            res.is_some() ==> res.unwrap()@ == self@[name@],
    {
        proof {
            use_type_invariant(self);
            self.lemma_positions();
        }
        match self.find(name) {
            Some(i) => Some(&self.entries[i].1),
            None => None,
        }
    }

    /// Binds `name` to `action`, replacing an earlier action of that name.
    pub fn insert(&mut self, name: String, action: Action)
        ensures
            final(self)@ == old(self)@.insert(name@, action@),
    {
        proof {
            use_type_invariant(&*self);
        }
        let ghost old_names = self.names();
        let ghost old_view = self@;
        match self.find(name.as_str()) {
            Some(i) => {
                let ghost k = name@;
                let ghost a = action@;
                let mut e: Vec<(String, Action)> = Vec::new();
                std::mem::swap(&mut e, &mut self.entries);
                e.set(i, (name, action));
                assert(e@.map_values(|e: (String, Action)| e.0@) =~= old_names);
                self.entries = e;
                proof {
                    assert(self.names() =~= old_names);
                    assert forall|k2: Seq<char>| #[trigger]
                        self@.dom().contains(k2) == old_view.insert(k, a).dom().contains(k2) by {}
                    assert forall|k2: Seq<char>| self@.dom().contains(k2) implies #[trigger] self@[k2]
                        == old_view.insert(k, a)[k2] by {
                        let j = pos_of(self.names(), k2);
                        assert(self.names().contains(k2));
                        if k2 == k {
                            assert(j == i);
                        }
                    }
                    assert(self@ =~= old_view.insert(k, a));
                }
            },
            None => {
                let ghost k = name@;
                let ghost a = action@;
                let mut e: Vec<(String, Action)> = Vec::new();
                std::mem::swap(&mut e, &mut self.entries);
                e.push((name, action));
                assert(e@.map_values(|e: (String, Action)| e.0@) =~= old_names.push(k));
                assert(!old_names.contains(k));
                self.entries = e;
                proof {
                    assert(self.names() =~= old_names.push(k));
                    assert(!old_names.contains(k));
                    assert(self.names().no_duplicates());
                    assert forall|k2: Seq<char>| #[trigger]
                        self@.dom().contains(k2) == old_view.insert(k, a).dom().contains(k2) by {
                        if k2 == k {
                            assert(self.names()[old_names.len() as int] == k);
                        }
                        if old_names.contains(k2) {
                            let j = choose|j: int| 0 <= j < old_names.len() && old_names[j] == k2;
                            assert(self.names()[j] == k2);
                        }
                        if self.names().contains(k2) && k2 != k {
                            let j = choose|j: int| 0 <= j < self.names().len() && self.names()[j] == k2;
                            assert(old_names[j] == k2);
                        }
                    }
                    assert forall|k2: Seq<char>| self@.dom().contains(k2) implies #[trigger] self@[k2]
                        == old_view.insert(k, a)[k2] by {
                        let j = pos_of(self.names(), k2);
                        assert(self.names().contains(k2));
                        if k2 == k {
                            assert(j == old_names.len());
                        } else {
                            assert(old_names.contains(k2)) by {
                                assert(old_names[j] == k2);
                            }
                            let j0 = pos_of(old_names, k2);
                            assert(self.names()[j0] == k2);
                        }
                    }
                    assert(self@ =~= old_view.insert(k, a));
                }
            },
        }
    }

    /// Removes the action named `name`, returning it.
    pub fn remove(&mut self, name: &str) -> (res: Option<Action>)
        ensures
            final(self)@ == old(self)@.remove(name@),
            res.is_some() == old(self)@.dom().contains(name@),
            res.is_some() ==> res.unwrap()@ == old(self)@[name@],
    {
        proof {
            use_type_invariant(&*self);
            self.lemma_positions();
        }
        let ghost old_names = self.names();
        let ghost old_view = self@;
        match self.find(name) {
            Some(i) => {
                let ghost k = name@;
                let mut v: Vec<(String, Action)> = Vec::new();
                std::mem::swap(&mut v, &mut self.entries);
                let e = v.remove(i);
                assert(v@.map_values(|e: (String, Action)| e.0@) =~= old_names.remove(i as int));
                self.entries = v;
                proof {
                    assert(self.names() =~= old_names.remove(i as int));
                    assert(self.names().no_duplicates());
                    assert forall|k2: Seq<char>| #[trigger]
                        self@.dom().contains(k2) == old_view.remove(k).dom().contains(k2) by {
                        if old_names.contains(k2) && k2 != k {
                            let j = choose|j: int| 0 <= j < old_names.len() && old_names[j] == k2;
                            assert(j != i);
                            if j < i {
                                assert(self.names()[j] == k2);
                            } else {
                                assert(self.names()[j - 1] == k2);
                            }
                        }
                        if self.names().contains(k2) {
                            let j = choose|j: int| 0 <= j < self.names().len() && self.names()[j] == k2;
                            if j < i {
                                assert(old_names[j] == k2);
                            } else {
                                assert(old_names[j + 1] == k2);
                            }
                        }
                    }
                    assert forall|k2: Seq<char>| self@.dom().contains(k2) implies #[trigger] self@[k2]
                        == old_view.remove(k)[k2] by {
                        let j = pos_of(self.names(), k2);
                        assert(self.names().contains(k2));
                        let j0 = if j < i { j } else { j + 1 };
                        assert(old_names[j0] == k2);
                        assert(old_names.contains(k2));
                        let p = pos_of(old_names, k2);
                        assert(p == j0);
                    }
                    assert(self@ =~= old_view.remove(k));
                    assert(old_view[k] == e.1@) by {
                        assert(old_names.contains(k));
                        assert(pos_of(old_names, k) == i);
                    }
                }
                Some(e.1)
            },
            None => {
                assert(self@ =~= old_view.remove(name@));
                None
            },
        }
    }

    /// Binds `name` to `action` unless an action of that name exists.
    pub fn insert_if_absent(&mut self, name: String, action: Action)
        ensures
            final(self)@ == if old(self)@.dom().contains(name@) {
                old(self)@
            } else {
                old(self)@.insert(name@, action@)
            },
    {
        if !self.contains_key(name.as_str()) {
            self.insert(name, action);
        }
    }
}


impl ActionMap {
    /// Rewrites the tab specification of every action with `retab`.
    pub fn retab_all(&mut self)
        ensures
            final(self)@ == crate::keymap::retab_all_spec(old(self)@),
    {
        proof {
            use_type_invariant(&*self);
            self.lemma_positions();
        }
        let ghost old_names = self.names();
        let ghost old_view = self@;
        let mut out: Vec<(String, Action)> = Vec::new();
        let mut i: usize = 0;
        while i < self.entries.len()
            invariant
                old_names == self.names(),
                i <= self.entries.len(),
                out.len() == i,
                forall|j: int| 0 <= j < i ==> (#[trigger] out@[j]).0@ == old_names[j] && out@[j].1@
                    == (ActionView { keys: self.entries@[j].1@.keys, tab: crate::keymap::retab(self.entries@[j].1@.tab) }),
            decreases self.entries.len() - i,
        {
            let name = self.entries[i].0.clone();
            let keys = copy_strings(&self.entries[i].1.keys);
            let tab = crate::keymap::retab_str(self.entries[i].1.tab.as_str());
            out.push((name, Action { keys, tab }));
            i = i + 1;
        }
        let ghost olde = self.entries@;
        assert(out@.map_values(|e: (String, Action)| e.0@) =~= old_names);
        self.entries = out;
        proof {
            assert(self.names() =~= old_names);
            let target = crate::keymap::retab_all_spec(old_view);
            assert forall|k: Seq<char>| #[trigger] self@.dom().contains(k) == target.dom().contains(k) by {}
            assert forall|k: Seq<char>| self@.dom().contains(k) implies #[trigger] self@[k] == target[k] by {
                assert(self.names().contains(k));
                let j = pos_of(self.names(), k);
                assert(old_view[k] == olde[j].1@);
            }
            assert(self@ =~= target);
        }
    }
}

} // verus!
