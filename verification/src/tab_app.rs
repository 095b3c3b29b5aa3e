//! The tab-only terminal front end: four tabs, a small key table, and
//! Vim-like `gt`/`gT` navigation with a count.
use vstd::prelude::*;
use crate::cloud::is_first_index;
use crate::key::Key;
use crate::text::{char_to_string, copy_str, str_eq};

verus! {

/// The tabs, in display order.
#[derive(Debug, Clone, Copy, PartialEq, Eq, Structural)]
pub enum SelectedTab {
    Server,
    Client,
    Tab3,
    Tab4,
}

/// Position of a tab.
pub open spec fn tab_pos(t: SelectedTab) -> nat {
    match t {
        SelectedTab::Server => 0,
        SelectedTab::Client => 1,
        SelectedTab::Tab3 => 2,
        SelectedTab::Tab4 => 3,
    }
}

/// The tab at a position, if any.
pub open spec fn tab_from(i: nat) -> Option<SelectedTab> {
    if i == 0 {
        Some(SelectedTab::Server)
    } else if i == 1 {
        Some(SelectedTab::Client)
    } else if i == 2 {
        Some(SelectedTab::Tab3)
    } else if i == 3 {
        Some(SelectedTab::Tab4)
    } else {
        None
    }
}

/// The tab before, or the same tab at the start.
pub open spec fn tab_prev(t: SelectedTab) -> SelectedTab {
    if tab_pos(t) == 0 {
        t
    } else {
        tab_from((tab_pos(t) - 1) as nat)->Some_0
    }
}

/// The tab after, or the same tab at the end.
pub open spec fn tab_next(t: SelectedTab) -> SelectedTab {
    match tab_from(tab_pos(t) + 1) {
        Some(u) => u,
        None => t,
    }
}

impl Default for SelectedTab {
    fn default() -> (res: SelectedTab)
        ensures
            res == SelectedTab::Server,
    {
        SelectedTab::Server
    }
}

impl SelectedTab {
    /// Position of this tab.
    pub fn index(self) -> (res: usize)
        ensures
            res == tab_pos(self),
    {
        match self {
            SelectedTab::Server => 0,
            SelectedTab::Client => 1,
            SelectedTab::Tab3 => 2,
            SelectedTab::Tab4 => 3,
        }
    }

    /// The tab at position `i`, if any.
    pub fn from_repr(i: usize) -> (res: Option<SelectedTab>)
        ensures
            res == tab_from(i as nat),
    {
        if i == 0 {
            Some(SelectedTab::Server)
        } else if i == 1 {
            Some(SelectedTab::Client)
        } else if i == 2 {
            Some(SelectedTab::Tab3)
        } else if i == 3 {
            Some(SelectedTab::Tab4)
        } else {
            None
        }
    }

    /// The tab before this one; the first tab stays.
    pub fn previous(self) -> (res: SelectedTab)
        ensures
            res == tab_prev(self),
    {
        let i = self.index();
        let p = if i == 0 {
            0
        } else {
            i - 1
        };
        match SelectedTab::from_repr(p) {
            Some(t) => t,
            None => self,
        }
    }

    /// The tab after this one; the last tab stays.
    pub fn next(self) -> (res: SelectedTab)
        ensures
            res == tab_next(self),
    {
        let i = self.index();
        match SelectedTab::from_repr(i + 1) {
            Some(t) => t,
            None => self,
        }
    }
}

/// Key table: each key with the name of its action.
pub struct Config {
    pub keybindings: Vec<(String, String)>,
}

/// The keys of a key table, in order.
pub open spec fn binding_keys(b: Seq<(String, String)>) -> Seq<Seq<char>> {
    b.map_values(|p: (String, String)| p.0@)
}

/// The action bound to `key`: that of its first entry.
pub open spec fn bound_action(b: Seq<(String, String)>, key: Seq<char>) -> Option<Seq<char>> {
    if binding_keys(b).contains(key) {
        Some(b[choose|i: int| is_first_index(binding_keys(b), key, i)].1@)
    } else {
        None
    }
}

/// The keys bound to `action`, in table order.
pub open spec fn keys_bound_to(b: Seq<(String, String)>, action: Seq<char>) -> Seq<Seq<char>>
    decreases b.len(),
{
    if b.len() == 0 {
        Seq::empty()
    } else {
        let rest = keys_bound_to(b.drop_last(), action);
        if b.last().1@ == action {
            rest.push(b.last().0@)
        } else {
            rest
        }
    }
}

/// A value in a sequence has a first position.
proof fn lemma_first_of(names: Seq<Seq<char>>, n: Seq<char>)
    requires
        names.contains(n),
    ensures
        exists|i: int| is_first_index(names, n, i),
    decreases names.len(),
{
    let r = names.drop_last();
    if r.contains(n) {
        lemma_first_of(r, n);
        let i = choose|i: int| is_first_index(r, n, i);
        assert(names[i] == r[i]);
        assert forall|j: int| 0 <= j < i implies names[j] != n by {
            assert(names[j] == r[j]);
        }
        assert(is_first_index(names, n, i));
    } else {
        let w = choose|w: int| 0 <= w < names.len() && names[w] == n;
        if w < names.len() - 1 {
            assert(r[w] == n);
        }
        assert forall|j: int| 0 <= j < names.len() - 1 implies names[j] != n by {
            assert(names[j] == r[j]);
        }
        assert(is_first_index(names, n, names.len() - 1));
    }
}

/// Each key appears once in the table, as in a map from keys.
pub open spec fn keys_distinct(b: Seq<(String, String)>) -> bool {
    binding_keys(b).no_duplicates()
}

/// The keys bound to `action` are those of the entries naming it; with
/// distinct keys, none appears twice.
pub proof fn lemma_keys_bound_to(b: Seq<(String, String)>, action: Seq<char>)
    ensures
        forall|k: Seq<char>|
            #[trigger] keys_bound_to(b, action).contains(k) <==> exists|i: int|
                0 <= i < b.len() && b[i].0@ == k && b[i].1@ == action,
        keys_distinct(b) ==> keys_bound_to(b, action).no_duplicates(),
    decreases b.len(),
{
    if b.len() > 0 {
        let r = b.drop_last();
        lemma_keys_bound_to(r, action);
        assert(binding_keys(r) =~= binding_keys(b).drop_last());
        if b.last().1@ == action {
            assert(keys_bound_to(b, action) == keys_bound_to(r, action).push(b.last().0@));
        } else {
            assert(keys_bound_to(b, action) == keys_bound_to(r, action));
        }
        let kb = keys_bound_to(b, action);
        let kr = keys_bound_to(r, action);
        assert forall|k: Seq<char>|
            #[trigger] keys_bound_to(b, action).contains(k) <==> exists|i: int|
                0 <= i < b.len() && b[i].0@ == k && b[i].1@ == action by {
            if kb.contains(k) {
                let x = choose|x: int| 0 <= x < kb.len() && kb[x] == k;
                if x < kr.len() {
                    assert(kr[x] == kb[x]);
                    assert(kr.contains(k));
                    let i = choose|i: int| 0 <= i < r.len() && r[i].0@ == k && r[i].1@ == action;
                    assert(b[i] == r[i]);
                } else {
                    assert(b.last().1@ == action);
                    assert(b[b.len() - 1].0@ == k && b[b.len() - 1].1@ == action);
                }
            }
            if exists|i: int| 0 <= i < b.len() && b[i].0@ == k && b[i].1@ == action {
                let i = choose|i: int| 0 <= i < b.len() && b[i].0@ == k && b[i].1@ == action;
                if i < b.len() - 1 {
                    assert(r[i] == b[i]);
                    assert(kr.contains(k));
                    let x = choose|x: int| 0 <= x < kr.len() && kr[x] == k;
                    assert(kb[x] == kr[x]);
                } else {
                    assert(kb.last() == k);
                }
            }
        }
        if keys_distinct(b) && b.last().1@ == action {
            let last = b.last().0@;
            assert(!keys_bound_to(r, action).contains(last)) by {
                if keys_bound_to(r, action).contains(last) {
                    let i = choose|i: int| 0 <= i < r.len() && r[i].0@ == last && r[i].1@ == action;
                    assert(binding_keys(b)[i] == binding_keys(b)[b.len() - 1]);
                }
            }
        }
    }
}

proof fn lemma_first_index_unique(names: Seq<Seq<char>>, n: Seq<char>, i: int, j: int)
    requires
        is_first_index(names, n, i),
        is_first_index(names, n, j),
    ensures
        i == j,
{
    if i < j {
        assert(names[i] == n);
    } else if j < i {
        assert(names[j] == n);
    }
}

impl Default for Config {
    fn default() -> (res: Config)
        ensures
            res.keybindings@.len() == 3,
            res.keybindings@[0].0@ == "q"@ && res.keybindings@[0].1@ == "Quit"@,
            res.keybindings@[1].0@ == "gt"@ && res.keybindings@[1].1@ == "Next Tab"@,
            res.keybindings@[2].0@ == "gT"@ && res.keybindings@[2].1@ == "Previous Tab"@,
            keys_distinct(res.keybindings@),
            res.wf(),
    {
        proof {
            reveal_strlit("q");
            reveal_strlit("gt");
            reveal_strlit("gT");
            assert("q"@.len() != "gt"@.len());
            assert("q"@.len() != "gT"@.len());
            assert("gt"@[1] != "gT"@[1]);
        }
        let mut keybindings: Vec<(String, String)> = Vec::new();
        keybindings.push((String::from_str("q"), String::from_str("Quit")));
        keybindings.push((String::from_str("gt"), String::from_str("Next Tab")));
        keybindings.push((String::from_str("gT"), String::from_str("Previous Tab")));
        let res = Config { keybindings };
        proof {
            let k = binding_keys(res.keybindings@);
            assert(k[0] == "q"@ && k[1] == "gt"@ && k[2] == "gT"@);
            assert(k.len() == 3);
        }
        res
    }
}

impl Config {
    /// Each key of the table is bound once, as in a map from keys.
    pub open spec fn wf(&self) -> bool {
        keys_distinct(self.keybindings@)
    }

    /// An empty table.
    pub fn new() -> (res: Config)
        ensures
            res.keybindings@.len() == 0,
            res.wf(),
    {
        Config { keybindings: Vec::new() }
    }

    /// Binds `key` to `action`, replacing the key's earlier action, as a
    /// map insertion does; other keys keep theirs.
    pub fn bind(&mut self, key: String, action: String)
        requires
            old(self).wf(),
        ensures
            final(self).wf(),
            bound_action(final(self).keybindings@, key@) == Some(action@),
            forall|k: Seq<char>| k != key@ ==> #[trigger] bound_action(final(self).keybindings@, k) == bound_action(
                old(self).keybindings@,
                k,
            ),
    {
        let ghost b0 = self.keybindings@;
        let mut i: usize = 0;
        while i < self.keybindings.len()
            invariant
                i <= self.keybindings.len(),
                self.keybindings@ == b0,
                b0 == old(self).keybindings@,
                keys_distinct(b0),
                forall|j: int| 0 <= j < i ==> #[trigger] b0[j].0@ != key@,
            decreases self.keybindings.len() - i,
        {
            if str_eq(self.keybindings[i].0.as_str(), key.as_str()) {
                self.keybindings.set(i, (key, action));
                proof {
                    let b = self.keybindings@;
                    assert(binding_keys(b) =~= binding_keys(b0)) by {
                        assert forall|j: int| 0 <= j < b.len() implies binding_keys(b)[j] == binding_keys(b0)[j] by {
                            if j != i {
                                assert(b[j] == b0[j]);
                            }
                        }
                    }
                    assert(is_first_index(binding_keys(b), key@, i as int));
                    let f = choose|f: int| is_first_index(binding_keys(b), key@, f);
                    lemma_first_index_unique(binding_keys(b), key@, i as int, f);
                    assert forall|k: Seq<char>| k != key@ implies #[trigger] bound_action(b, k) == bound_action(b0, k) by {
                        if binding_keys(b).contains(k) {
                            let f1 = choose|f: int| is_first_index(binding_keys(b), k, f);
                            let f0 = choose|f: int| is_first_index(binding_keys(b0), k, f);
                            lemma_first_of(binding_keys(b), k);
                            lemma_first_index_unique(binding_keys(b0), k, f1, f0);
                            assert(binding_keys(b)[i as int] == key@);
                            assert(binding_keys(b)[f1] == k);
                            assert(f1 != i);
                            assert(b[f1] == b0[f1]);
                            assert(bound_action(b, k) == Some(b[f1].1@));
                            assert(bound_action(b0, k) == Some(b0[f0].1@));
                        }
                    }
                }
                return;
            }
            i = i + 1;
        }
        self.keybindings.push((key, action));
        proof {
            let b = self.keybindings@;
            let n = b0.len() as int;
            assert(binding_keys(b) =~= binding_keys(b0).push(key@));
            assert(!binding_keys(b0).contains(key@)) by {
                if binding_keys(b0).contains(key@) {
                    let j = choose|j: int| 0 <= j < binding_keys(b0).len() && binding_keys(b0)[j] == key@;
                    assert(b0[j].0@ != key@);
                }
            }
            assert(binding_keys(b).no_duplicates()) by {
                assert forall|x: int, y: int| 0 <= x < binding_keys(b).len() && 0 <= y < binding_keys(b).len() && x != y
                    implies binding_keys(b)[x] != binding_keys(b)[y] by {
                    if x == n {
                        assert(binding_keys(b0)[y] == binding_keys(b)[y]);
                    } else if y == n {
                        assert(binding_keys(b0)[x] == binding_keys(b)[x]);
                    } else {
                        assert(binding_keys(b0)[x] == binding_keys(b)[x]);
                        assert(binding_keys(b0)[y] == binding_keys(b)[y]);
                    }
                }
            }
            assert forall|j: int| 0 <= j < n implies binding_keys(b)[j] != key@ by {
                assert(binding_keys(b)[j] == binding_keys(b0)[j]);
            }
            assert(is_first_index(binding_keys(b), key@, n));
            let f = choose|f: int| is_first_index(binding_keys(b), key@, f);
            lemma_first_index_unique(binding_keys(b), key@, n, f);
            assert forall|k: Seq<char>| k != key@ implies #[trigger] bound_action(b, k) == bound_action(b0, k) by {
                if binding_keys(b0).contains(k) {
                    let f0 = choose|f: int| is_first_index(binding_keys(b0), k, f);
                    lemma_first_of(binding_keys(b0), k);
                    assert(is_first_index(binding_keys(b), k, f0)) by {
                        assert(binding_keys(b)[f0] == binding_keys(b0)[f0]);
                        assert forall|j: int| 0 <= j < f0 implies binding_keys(b)[j] != k by {
                            assert(binding_keys(b)[j] == binding_keys(b0)[j]);
                        }
                    }
                    let f1 = choose|f: int| is_first_index(binding_keys(b), k, f);
                    lemma_first_index_unique(binding_keys(b), k, f0, f1);
                    assert(binding_keys(b).contains(k));
                } else {
                    assert(!binding_keys(b).contains(k)) by {
                        if binding_keys(b).contains(k) {
                            let j = choose|j: int| 0 <= j < binding_keys(b).len() && binding_keys(b)[j] == k;
                            if j < n {
                                assert(binding_keys(b0)[j] == k);
                            }
                        }
                    }
                }
            }
        }
    }

    /// The table read from the configuration file, or the default one when
    /// it could not be read.
    pub fn load_or_default<E>(loaded: Result<Config, E>) -> (res: Config)
        ensures
            loaded matches Ok(c) ==> res == c,
            loaded is Err ==> res.keybindings@.len() == 3,
            (loaded matches Ok(c) ==> c.wf()) ==> res.wf(),
    {
        match loaded {
            Ok(c) => c,
            Err(_) => Config::default(),
        }
    }

    /// The action bound to `key`.
    pub fn get_action(&self, key: &str) -> (res: Option<&String>)
        ensures
            res is Some == bound_action(self.keybindings@, key@) is Some,
            res matches Some(a) ==> a@ == bound_action(self.keybindings@, key@)->Some_0,
    {
        let mut i: usize = 0;
        while i < self.keybindings.len()
            invariant
                i <= self.keybindings.len(),
                forall|j: int| 0 <= j < i ==> #[trigger] self.keybindings@[j].0@ != key@,
            decreases self.keybindings.len() - i,
        {
            if str_eq(self.keybindings[i].0.as_str(), key) {
                proof {
                    let b = self.keybindings@;
                    assert(binding_keys(b)[i as int] == key@);
                    assert(is_first_index(binding_keys(b), key@, i as int));
                    let k = choose|k: int| is_first_index(binding_keys(b), key@, k);
                    lemma_first_index_unique(binding_keys(b), key@, i as int, k);
                }
                return Some(&self.keybindings[i].1);
            }
            i = i + 1;
        }
        proof {
            let b = self.keybindings@;
            assert forall|j: int| 0 <= j < binding_keys(b).len() implies binding_keys(b)[j] != key@ by {
                assert(b[j].0@ != key@);
            }
        }
        None
    }

    /// The keys bound to `action`, in table order. In a table whose keys
    /// are distinct, these are exactly the keys whose action is `action`,
    /// each once.
    pub fn get_keys_for_action(&self, action: &str) -> (res: Vec<String>)
        ensures
            res@.map_values(|k: String| k@) == keys_bound_to(self.keybindings@, action@),
            keys_distinct(self.keybindings@) ==> res@.map_values(|k: String| k@).no_duplicates(),
            keys_distinct(self.keybindings@) ==> forall|k: Seq<char>|
                res@.map_values(|k: String| k@).contains(k) <==> #[trigger] bound_action(self.keybindings@, k)
                    == Some(action@),
    {
        proof {
            let b = self.keybindings@;
            lemma_keys_bound_to(b, action@);
            if keys_distinct(b) {
                assert forall|k: Seq<char>|
                    #[trigger] keys_bound_to(b, action@).contains(k) <==> bound_action(b, k) == Some(action@) by {
                    if binding_keys(b).contains(k) {
                        let f = choose|i: int| is_first_index(binding_keys(b), k, i);
                        let j = choose|j: int| 0 <= j < binding_keys(b).len() && binding_keys(b)[j] == k;
                        assert(binding_keys(b)[j] == k);
                        assert(exists|i: int| is_first_index(binding_keys(b), k, i)) by {
                            lemma_first_of(binding_keys(b), k);
                        }
                        assert(is_first_index(binding_keys(b), k, f));
                        assert forall|i: int| 0 <= i < b.len() && b[i].0@ == k implies i == f by {
                            assert(binding_keys(b)[i] == binding_keys(b)[f]);
                        }
                    } else {
                        assert forall|i: int| 0 <= i < b.len() implies b[i].0@ != k by {
                            assert(binding_keys(b)[i] == b[i].0@);
                        }
                    }
                }
            }
        }
        let mut res: Vec<String> = Vec::new();
        let mut i: usize = 0;
        while i < self.keybindings.len()
            invariant
                i <= self.keybindings.len(),
                res@.map_values(|k: String| k@) == keys_bound_to(self.keybindings@.take(i as int), action@),
            decreases self.keybindings.len() - i,
        {
            proof {
                assert(self.keybindings@.take(i + 1).drop_last() =~= self.keybindings@.take(i as int));
            }
            if str_eq(self.keybindings[i].1.as_str(), action) {
                let ghost before = res@;
                res.push(copy_str(self.keybindings[i].0.as_str()));
                assert(res@.map_values(|k: String| k@) =~= before.map_values(|k: String| k@).push(
                    self.keybindings@[i as int].0@,
                ));
            }
            i = i + 1;
        }
        assert(self.keybindings@.take(i as int) =~= self.keybindings@);
        res
    }
}

/// Whether the program keeps running.
#[derive(Debug, Clone, Copy, PartialEq, Eq, Structural)]
pub enum AppState {
    Running,
    Quitting,
}

/// Where a key sequence stands.
#[derive(Debug, Clone, Copy, PartialEq, Eq, Structural)]
pub enum InputState {
    Normal,
    AfterG,
    NumberPrefix,
}

impl Default for AppState {
    fn default() -> (res: AppState)
        ensures
            res == AppState::Running,
    {
        AppState::Running
    }
}

impl Default for InputState {
    fn default() -> (res: InputState)
        ensures
            res == InputState::Normal,
    {
        InputState::Normal
    }
}

/// The application: which tab is shown and what keys were typed so far.
pub struct App {
    pub state: AppState,
    pub selected_tab: SelectedTab,
    pub config: Config,
    pub input_state: InputState,
    pub pending_number: Option<usize>,
}

/// The numeric value of a decimal digit character.
pub open spec fn digit_value(c: char) -> nat {
    ((c as u32) - ('0' as u32)) as nat
}

/// Whether a key is a decimal digit.
pub open spec fn is_digit_key(k: Key) -> bool {
    k matches Key::Char(c) && '0' <= c && c <= '9'
}

/// What one key does: `(state, tab, input state, pending count)` after it.
pub open spec fn tab_app_step(
    b: Seq<(String, String)>,
    st: AppState,
    tab: SelectedTab,
    input: InputState,
    pending: Option<usize>,
    key: Key,
) -> (AppState, SelectedTab, InputState, Option<usize>) {
    if input == InputState::Normal && (key == Key::Char('q') || key == Key::Esc) {
        (AppState::Quitting, tab, input, pending)
    } else if input == InputState::Normal && is_digit_key(key) {
        (st, tab, InputState::NumberPrefix, Some(digit_value(key->Char_0) as usize))
    } else if input == InputState::NumberPrefix && is_digit_key(key) {
        (st, tab, input, match pending {
            Some(n) => Some((n * 10 + digit_value(key->Char_0)) as usize),
            None => None,
        })
    } else if (input == InputState::Normal || input == InputState::NumberPrefix) && key == Key::Char(
        'g',
    ) {
        (st, tab, InputState::AfterG, pending)
    } else if input == InputState::AfterG && key == Key::Char('t') {
        match pending {
            Some(n) => (
                st,
                match tab_from(if n == 0 { 0 } else { (n - 1) as nat }) {
                    Some(t) => t,
                    None => tab,
                },
                InputState::Normal,
                None,
            ),
            None => (st, tab_next(tab), InputState::Normal, None),
        }
    } else if input == InputState::AfterG && key == Key::Char('T') {
        (st, tab_prev(tab), InputState::Normal, pending)
    } else if input == InputState::Normal && key == Key::Right {
        (st, tab_next(tab), input, pending)
    } else if input == InputState::Normal && key == Key::Left {
        (st, tab_prev(tab), input, pending)
    } else if input == InputState::Normal && key is Char {
        match bound_action(b, seq![key->Char_0]) {
            Some(a) => if a == "Next Tab"@ {
                (st, tab_next(tab), input, pending)
            } else if a == "Previous Tab"@ {
                (st, tab_prev(tab), input, pending)
            } else if a == "Quit"@ {
                (AppState::Quitting, tab, input, pending)
            } else {
                (st, tab, input, pending)
            },
            None => (st, tab, input, pending),
        }
    } else {
        (st, tab, InputState::Normal, None)
    }
}

impl App {
    /// A running application on the first tab with the given key table.
    pub fn new(config: Config) -> (res: App)
        ensures
            res.state == AppState::Running,
            res.selected_tab == SelectedTab::Server,
            res.config == config,
            res.input_state == InputState::Normal,
            res.pending_number is None,
    {
        App {
            state: AppState::Running,
            selected_tab: SelectedTab::Server,
            config,
            input_state: InputState::Normal,
            pending_number: None,
        }
    }

    /// Shows the next tab (the last stays).
    pub fn next_tab(&mut self)
        ensures
            final(self).selected_tab == tab_next(old(self).selected_tab),
            final(self).state == old(self).state,
            final(self).config == old(self).config,
            final(self).input_state == old(self).input_state,
            final(self).pending_number == old(self).pending_number,
    {
        self.selected_tab = self.selected_tab.next();
    }

    /// Shows the previous tab (the first stays).
    pub fn previous_tab(&mut self)
        ensures
            final(self).selected_tab == tab_prev(old(self).selected_tab),
            final(self).state == old(self).state,
            final(self).config == old(self).config,
            final(self).input_state == old(self).input_state,
            final(self).pending_number == old(self).pending_number,
    {
        self.selected_tab = self.selected_tab.previous();
    }

    /// Shows the tab at `index`, if there is one.
    pub fn goto_tab(&mut self, index: usize)
        ensures
            final(self).selected_tab == (match tab_from(index as nat) {
                Some(t) => t,
                None => old(self).selected_tab,
            }),
            final(self).state == old(self).state,
            final(self).config == old(self).config,
            final(self).input_state == old(self).input_state,
            final(self).pending_number == old(self).pending_number,
    {
        match SelectedTab::from_repr(index) {
            Some(t) => {
                self.selected_tab = t;
            },
            None => {},
        }
    }

    /// Asks the program to stop.
    pub fn quit(&mut self)
        ensures
            final(self).state == AppState::Quitting,
            final(self).selected_tab == old(self).selected_tab,
            final(self).config == old(self).config,
            final(self).input_state == old(self).input_state,
            final(self).pending_number == old(self).pending_number,
    {
        self.state = AppState::Quitting;
    }

    /// Applies one key (see `tab_app_step`).
    pub fn handle_key(&mut self, key: Key)
        requires
            old(self).input_state == InputState::NumberPrefix && is_digit_key(key) ==> (old(self).pending_number matches Some(n) ==> n * 10 + 9 <= usize::MAX),
        ensures
            (final(self).state, final(self).selected_tab, final(self).input_state, final(self).pending_number) == tab_app_step(
                old(self).config.keybindings@,
                old(self).state,
                old(self).selected_tab,
                old(self).input_state,
                old(self).pending_number,
                key,
            ),
            final(self).config == old(self).config,
    {
        match (self.input_state, key) {
            (InputState::Normal, Key::Char('q')) | (InputState::Normal, Key::Esc) => {
                self.quit();
            },
            (InputState::Normal, Key::Char(d)) if '0' <= d && d <= '9' => {
                self.pending_number = Some(((d as u32) - ('0' as u32)) as usize);
                self.input_state = InputState::NumberPrefix;
            },
            (InputState::NumberPrefix, Key::Char(d)) if '0' <= d && d <= '9' => {
                match self.pending_number {
                    Some(current) => {
                        self.pending_number = Some(current * 10 + ((d as u32) - ('0' as u32)) as usize);
                    },
                    None => {},
                }
            },
            (InputState::Normal, Key::Char('g')) | (InputState::NumberPrefix, Key::Char('g')) => {
                self.input_state = InputState::AfterG;
            },
            (InputState::AfterG, Key::Char('t')) => {
                match self.pending_number {
                    Some(n) => {
                        self.pending_number = None;
                        let target = if n == 0 {
                            0
                        } else {
                            n - 1
                        };
                        self.goto_tab(target);
                    },
                    None => {
                        self.next_tab();
                    },
                }
                self.input_state = InputState::Normal;
            },
            (InputState::AfterG, Key::Char('T')) => {
                self.previous_tab();
                self.input_state = InputState::Normal;
            },
            (InputState::Normal, Key::Right) => self.next_tab(),
            (InputState::Normal, Key::Left) => self.previous_tab(),
            (InputState::Normal, Key::Char(c)) => {
                let key_str = char_to_string(c);
                match self.config.get_action(key_str.as_str()) {
                    Some(action) => {
                        let a = action.as_str();
                        if str_eq(a, "Next Tab") {
                            self.next_tab();
                        } else if str_eq(a, "Previous Tab") {
                            self.previous_tab();
                        } else if str_eq(a, "Quit") {
                            self.quit();
                        }
                    },
                    None => {},
                }
            },
            _ => {
                self.input_state = InputState::Normal;
                self.pending_number = None;
            },
        }
    }
}

} // verus!
