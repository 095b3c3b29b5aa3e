//! Key bindings of the terminal front end: which action a key triggers on
//! which tab, the default bindings, and the upgrade of older binding files.
use vstd::prelude::*;
use vstd::string::*;
use crate::action_map::{strs, Action, ActionMap, ActionView};
use crate::error::TuiError;
use crate::text::{
    copy_str, join_strs, join_with, lex_lt, lex_less, split_by, split_on, str_eq, trim, trim_str,
    lemma_lex_irreflexive, lemma_lex_asymmetric, lemma_lex_transitive, lemma_lex_total,
};

verus! {

/// Whether an action with tab specification `tab` is active on tab `current`:
/// `"any"`, or `current` is one of the comma-separated, trimmed tab names.
pub open spec fn applies(tab: Seq<char>, current: Seq<char>) -> bool {
    ||| tab == "any"@
    ||| exists|i: int| 0 <= i < split_on(tab, ',').len() && #[trigger] trim(split_on(tab, ',')[i]) == current
}

impl Action {
    /// Whether this action is active on `current_tab`.
    pub fn applies_to(&self, current_tab: &str) -> (res: bool)
        ensures
            res == applies(self.tab@, current_tab@),
    {
        if str_eq(self.tab.as_str(), "any") {
            return true;
        }
        let parts = split_by(self.tab.as_str(), ',');
        let ghost segs = split_on(self.tab@, ',');
        let mut i: usize = 0;
        while i < parts.len()
            invariant
                segs == parts@.map_values(|p: String| p@),
                segs == split_on(self.tab@, ','),
                i <= parts.len(),
                forall|j: int| 0 <= j < i ==> #[trigger] trim(segs[j]) != current_tab@,
            decreases parts.len() - i,
        {
            let t = trim_str(parts[i].as_str());
            if str_eq(t.as_str(), current_tab) {
                assert(segs[i as int] == parts@[i as int]@);
                assert(trim(split_on(self.tab@, ',')[i as int]) == current_tab@);
                return true;
            }
            i = i + 1;
        }
        false
    }
}

/// The front end's key configuration: a leader key and named actions.
pub struct Config {
    pub leader: String,
    pub actions: ActionMap,
}

/// The abstract value of a `Config`.
pub struct ConfigView {
    pub leader: Seq<char>,
    pub actions: Map<Seq<char>, ActionView>,
}

impl View for Config {
    type V = ConfigView;

    open spec fn view(&self) -> ConfigView {
        ConfigView { leader: self.leader@, actions: self.actions@ }
    }
}

/// An action value from keys and a tab specification.
pub open spec fn av(keys: Seq<Seq<char>>, tab: Seq<char>) -> ActionView {
    ActionView { keys, tab }
}

/// The bindings a fresh installation starts with.
pub open spec fn default_actions() -> Map<Seq<char>, ActionView> {
    Map::<Seq<char>, ActionView>::empty()
        .insert("Quit"@, av(seq!["q"@], "any"@))
        .insert("Next Tab"@, av(seq!["gt"@], "any"@))
        .insert("Previous Tab"@, av(seq!["gT"@], "any"@))
        .insert("Start/Stop Cloud"@, av(seq!["s"@], "dashboard"@))
        .insert("Open Cloud"@, av(seq!["o"@], "dashboard"@))
        .insert("Add Folder"@, av(seq!["a"@], "storage"@))
        .insert("Create Cloud"@, av(seq!["n"@], "storage"@))
        .insert("Remove Folder / Cloud"@, av(seq!["d"@, "x"@], "storage"@))
        .insert("Select All Folders"@, av(seq!["A"@], "storage"@))
        .insert("Edit"@, av(seq!["e"@], "storage"@))
        .insert("Set Cloud Password"@, av(seq!["p"@], "dashboard,storage"@))
        .insert("Toggle Password Visibility"@, av(seq!["<leader>p"@], "storage"@))
        .insert("Reload TUI Config"@, av(seq!["<leader>r"@], "settings"@))
        .insert("Reload Storage Config"@, av(seq!["<leader>c"@], "settings"@))
        .insert("Reload All Configs"@, av(seq!["<leader>R"@], "settings"@))
        .insert("Navigate Up"@, av(seq!["k"@, "<Up>"@], "any"@))
        .insert("Navigate Down"@, av(seq!["j"@, "<Down>"@], "any"@))
        .insert("Navigate to Top"@, av(seq!["gg"@], "any"@))
        .insert("Navigate to Bottom"@, av(seq!["G"@], "any"@))
        .insert("Cycle Focus Forward"@, av(seq!["<Tab>"@], "any"@))
        .insert("Cycle Focus Backward"@, av(seq!["<S-Tab>"@], "any"@))
        .insert("Toggle Debug"@, av(seq!["<leader>d"@], "any"@))
        .insert("Toggle Help"@, av(seq!["?"@], "any"@))
        .insert("Toggle Selection"@, av(seq!["v"@], "storage"@))
        .insert("Refresh/Reload"@, av(seq!["r"@, "<C-r>"@], "any"@))
        .insert("Execute Action"@, av(seq!["<Enter>"@], "settings"@))
}

/// A string with the characters of `x`.
fn st(x: &str) -> (res: String)
    ensures
        res@ == x@,
{
    String::from_str(x)
}

/// Keys list with one key.
fn keys1(a: &str) -> (res: Vec<String>)
    ensures
        strs(res@) == seq![a@],
{
    let v = vec![st(a)];
    assert(strs(v@) =~= seq![a@]);
    v
}

/// Keys list with two keys.
fn keys2(a: &str, b: &str) -> (res: Vec<String>)
    ensures
        strs(res@) == seq![a@, b@],
{
    let v = vec![st(a), st(b)];
    assert(strs(v@) =~= seq![a@, b@]);
    v
}

/// Binds `name` to a fresh action.
fn bind(m: &mut ActionMap, name: &str, keys: Vec<String>, tab: &str)
    ensures
        final(m)@ == old(m)@.insert(name@, av(strs(keys@), tab@)),
{
    m.insert(st(name), Action::new(keys, st(tab)));
}

/// The default bindings.
pub fn default_action_map() -> (res: ActionMap)
    ensures
        res@ == default_actions(),
{
    let mut m = ActionMap::new();
    bind(&mut m, "Quit", keys1("q"), "any");
    bind(&mut m, "Next Tab", keys1("gt"), "any");
    bind(&mut m, "Previous Tab", keys1("gT"), "any");
    bind(&mut m, "Start/Stop Cloud", keys1("s"), "dashboard");
    bind(&mut m, "Open Cloud", keys1("o"), "dashboard");
    bind(&mut m, "Add Folder", keys1("a"), "storage");
    bind(&mut m, "Create Cloud", keys1("n"), "storage");
    bind(&mut m, "Remove Folder / Cloud", keys2("d", "x"), "storage");
    bind(&mut m, "Select All Folders", keys1("A"), "storage");
    bind(&mut m, "Edit", keys1("e"), "storage");
    bind(&mut m, "Set Cloud Password", keys1("p"), "dashboard,storage");
    bind(&mut m, "Toggle Password Visibility", keys1("<leader>p"), "storage");
    bind(&mut m, "Reload TUI Config", keys1("<leader>r"), "settings");
    bind(&mut m, "Reload Storage Config", keys1("<leader>c"), "settings");
    bind(&mut m, "Reload All Configs", keys1("<leader>R"), "settings");
    bind(&mut m, "Navigate Up", keys2("k", "<Up>"), "any");
    bind(&mut m, "Navigate Down", keys2("j", "<Down>"), "any");
    bind(&mut m, "Navigate to Top", keys1("gg"), "any");
    bind(&mut m, "Navigate to Bottom", keys1("G"), "any");
    bind(&mut m, "Cycle Focus Forward", keys1("<Tab>"), "any");
    bind(&mut m, "Cycle Focus Backward", keys1("<S-Tab>"), "any");
    bind(&mut m, "Toggle Debug", keys1("<leader>d"), "any");
    bind(&mut m, "Toggle Help", keys1("?"), "any");
    bind(&mut m, "Toggle Selection", keys1("v"), "storage");
    bind(&mut m, "Refresh/Reload", keys2("r", "<C-r>"), "any");
    bind(&mut m, "Execute Action", keys1("<Enter>"), "settings");
    m
}

impl Default for Config {
    /// The default configuration: space as leader and the default bindings.
    fn default() -> (res: Self)
        ensures
            res@.leader == " "@,
            res@.actions == default_actions(),
    {
        Config { leader: st(" "), actions: default_action_map() }
    }
}

/// Action `n` exists, is bound to `key` and is active on `tab`.
pub open spec fn key_matches(m: Map<Seq<char>, ActionView>, n: Seq<char>, key: Seq<char>, tab: Seq<char>) -> bool {
    &&& m.dom().contains(n)
    &&& m[n].keys.contains(key)
    &&& applies(m[n].tab, tab)
}

/// Action `a` is preferred over action `b`: tab-specific actions come before
/// actions active on any tab, then names in order.
pub open spec fn ranks_before(m: Map<Seq<char>, ActionView>, a: Seq<char>, b: Seq<char>) -> bool {
    let a_any = m[a].tab == "any"@;
    let b_any = m[b].tab == "any"@;
    ||| (!a_any && b_any)
    ||| (a_any == b_any && lex_lt(a, b))
}

/// Whether `keys` holds `key`.
fn has_key(keys: &Vec<String>, key: &str) -> (res: bool)
    ensures
        res == strs(keys@).contains(key@),
{
    let mut i: usize = 0;
    while i < keys.len()
        invariant
            i <= keys.len(),
            forall|j: int| 0 <= j < i ==> keys@[j]@ != key@,
        decreases keys.len() - i,
    {
        if str_eq(keys[i].as_str(), key) {
            assert(strs(keys@)[i as int] == key@);
            return true;
        }
        i = i + 1;
    }
    false
}

impl Config {
    /// The action that `key` triggers on `current_tab`: among the actions
    /// bound to the key and active on the tab, a tab-specific one before one
    /// active on any tab, and then the first by name.
    pub fn get_action_for_key(&self, key: &str, current_tab: &str) -> (res: Option<String>)
        ensures
            match res {
                None => forall|n: Seq<char>| !key_matches(self.actions@, n, key@, current_tab@),
                Some(r) => key_matches(self.actions@, r@, key@, current_tab@) && forall|n: Seq<char>|
                    key_matches(self.actions@, n, key@, current_tab@) && n != r@ ==> ranks_before(
                        self.actions@,
                        r@,
                        n,
                    ),
            },
    {
        let entries = self.actions.entries();
        let ghost m = self.actions@;
        let ghost names = self.actions.names();
        let mut best: Option<usize> = None;
        let mut i: usize = 0;
        assert forall|j: int|
            0 <= j < entries.len() implies #[trigger] m.dom().contains(names[j]) && m[names[j]]
                == entries@[j].1@ by {
            assert(entries@[j].0@ == names[j]);
            assert(entries@[j].1@ == self.actions.action_at(j));
            assert(self.actions@.dom().contains(self.actions.names()[j]));
        }
        while i < entries.len()
            invariant
                m == self.actions@,
                names == self.actions.names(),
                names.len() == entries.len(),
                names.no_duplicates(),
                forall|j: int| 0 <= j < entries.len() ==> #[trigger] entries@[j].0@ == names[j],
                forall|j: int|
                    0 <= j < entries.len() ==> #[trigger] m.dom().contains(names[j]) && m[names[j]]
                        == entries@[j].1@,
                i <= entries.len(),
                match best {
                    Some(b) => b < i && key_matches(m, names[b as int], key@, current_tab@) && forall|j: int|
                        0 <= j < i && j != b && key_matches(m, #[trigger] names[j], key@, current_tab@)
                            ==> ranks_before(m, names[b as int], names[j]),
                    None => forall|j: int| 0 <= j < i ==> !key_matches(m, #[trigger] names[j], key@, current_tab@),
                },
            decreases entries.len() - i,
        {
            let (name, action) = (&entries[i].0, &entries[i].1);
            if has_key(&action.keys, key) && action.applies_to(current_tab) {
                assert(m.dom().contains(names[i as int]));
                assert(entries@[i as int].1@ == m[names[i as int]]);
                assert(key_matches(m, names[i as int], key@, current_tab@));
                match best {
                    None => {
                        best = Some(i);
                    },
                    Some(b) => {
                        let b_name = &entries[b].0;
                        let b_any = str_eq(entries[b].1.tab.as_str(), "any");
                        let i_any = str_eq(action.tab.as_str(), "any");
                        let better = (!i_any && b_any) || (i_any == b_any && lex_less(
                            name.as_str(),
                            b_name.as_str(),
                        ));
                        proof {
                            let ni = names[i as int];
                            let nb = names[b as int];
                            assert(ni != nb);
                            lemma_lex_total(ni, nb);
                            lemma_lex_asymmetric(ni, nb);
                            assert(better == ranks_before(m, ni, nb));
                            if better {
                                assert forall|j: int|
                                    0 <= j < i + 1 && j != i && key_matches(m, #[trigger] names[j], key@, current_tab@)
                                        implies ranks_before(m, ni, names[j]) by {
                                    if j != b {
                                        assert(ranks_before(m, nb, names[j]));
                                        if lex_lt(ni, nb) && lex_lt(nb, names[j]) {
                                            lemma_lex_transitive(ni, nb, names[j]);
                                        }
                                    }
                                }
                            } else {
                                assert(ranks_before(m, nb, ni));
                            }
                        }
                        if better {
                            best = Some(i);
                        }
                    },
                }
            }
            i = i + 1;
        }
        match best {
            None => {
                assert forall|n: Seq<char>| !key_matches(m, n, key@, current_tab@) by {
                    if key_matches(m, n, key@, current_tab@) {
                        let j = choose|j: int| 0 <= j < names.len() && names[j] == n;
                        assert(!key_matches(m, names[j], key@, current_tab@));
                    }
                }
                None
            },
            Some(b) => {
                let r = entries[b].0.clone();
                assert forall|n: Seq<char>|
                    key_matches(m, n, key@, current_tab@) && n != r@ implies ranks_before(m, r@, n) by {
                    let j = choose|j: int| 0 <= j < names.len() && names[j] == n;
                    assert(key_matches(m, names[j], key@, current_tab@));
                }
                Some(r)
            },
        }
    }

    /// The action named `action_name`, if any.
    pub fn get_action(&self, action_name: &str) -> (res: Option<&Action>)
        ensures
            res.is_some() == self.actions@.dom().contains(action_name@),
            res.is_some() ==> res.unwrap()@ == self.actions@[action_name@],
    {
        self.actions.get(action_name)
    }

    /// The keys bound to `action`, or none when there is no such action.
    pub fn get_keys_for_action(&self, action: &str) -> (res: Vec<String>)
        ensures
            strs(res@) == if self.actions@.dom().contains(action@) {
                self.actions@[action@].keys
            } else {
                Seq::<Seq<char>>::empty()
            },
    {
        match self.actions.get(action) {
            Some(a) => copy_keys(&a.keys),
            None => {
                let v: Vec<String> = Vec::new();
                assert(strs(v@) =~= Seq::<Seq<char>>::empty());
                v
            },
        }
    }
}

/// A copy of a key list.
fn copy_keys(v: &Vec<String>) -> (res: Vec<String>)
    ensures
        strs(res@) == strs(v@),
{
    crate::text::copy_strings(v)
}

} // verus!

verus! {

// ---------------------------------------------------------------------------
// tab names
// ---------------------------------------------------------------------------

/// Older tab names and their current names.
pub open spec fn rename_tab(t: Seq<char>) -> Seq<char> {
    if t == "clouds"@ {
        "dashboard"@
    } else if t == "folders"@ {
        "storage"@
    } else {
        t
    }
}

/// A tab specification with each comma-separated name trimmed and renamed.
pub open spec fn retab(tab: Seq<char>) -> Seq<char> {
    join_with(split_on(tab, ',').map_values(|s: Seq<char>| rename_tab(trim(s))), ","@)
}

/// Every action's tab specification passed through `retab`.
pub open spec fn retab_all_spec(m: Map<Seq<char>, ActionView>) -> Map<Seq<char>, ActionView> {
    m.map_values(|a: ActionView| ActionView { keys: a.keys, tab: retab(a.tab) })
}

/// `retab` on a string.
pub fn retab_str(tab: &str) -> (res: String)
    ensures
        res@ == retab(tab@),
{
    let parts = split_by(tab, ',');
    let ghost segs = split_on(tab@, ',');
    let mut out: Vec<String> = Vec::new();
    let mut i: usize = 0;
    while i < parts.len()
        invariant
            segs == parts@.map_values(|p: String| p@),
            i <= parts.len(),
            out.len() == i,
            forall|j: int| 0 <= j < i ==> #[trigger] out@[j]@ == rename_tab(trim(segs[j])),
        decreases parts.len() - i,
    {
        let t = trim_str(parts[i].as_str());
        let r = if str_eq(t.as_str(), "clouds") {
            st("dashboard")
        } else if str_eq(t.as_str(), "folders") {
            st("storage")
        } else {
            t
        };
        out.push(r);
        i = i + 1;
    }
    assert(out@.map_values(|p: String| p@) =~= segs.map_values(|s: Seq<char>| rename_tab(trim(s))));
    join_strs(&out, ",")
}

/// Some tab name of the specification is an older name.
pub open spec fn has_old_tab_name(tab: Seq<char>) -> bool {
    exists|i: int|
        0 <= i < split_on(tab, ',').len() && (#[trigger] trim(split_on(tab, ',')[i]) == "clouds"@
            || trim(split_on(tab, ',')[i]) == "folders"@)
}

/// Whether a tab specification names an older tab.
fn tab_has_old_name(tab: &str) -> (res: bool)
    ensures
        res == has_old_tab_name(tab@),
{
    let parts = split_by(tab, ',');
    let ghost segs = split_on(tab@, ',');
    let mut i: usize = 0;
    while i < parts.len()
        invariant
            segs == parts@.map_values(|p: String| p@),
            segs == split_on(tab@, ','),
            i <= parts.len(),
            forall|j: int| 0 <= j < i ==> #[trigger] trim(segs[j]) != "clouds"@ && trim(segs[j]) != "folders"@,
        decreases parts.len() - i,
    {
        let t = trim_str(parts[i].as_str());
        if str_eq(t.as_str(), "clouds") || str_eq(t.as_str(), "folders") {
            assert(segs[i as int] == parts@[i as int]@);
            return true;
        }
        i = i + 1;
    }
    false
}

// ---------------------------------------------------------------------------
// key lists
// ---------------------------------------------------------------------------

/// The keys without any equal to `a` or `b`.
pub open spec fn drop_keys(ks: Seq<Seq<char>>, a: Seq<char>, b: Seq<char>) -> Seq<Seq<char>>
    decreases ks.len(),
{
    if ks.len() == 0 {
        ks
    } else {
        let r = drop_keys(ks.drop_last(), a, b);
        if ks.last() == a || ks.last() == b {
            r
        } else {
            r.push(ks.last())
        }
    }
}

/// The keys with `x` added at the end unless present.
pub open spec fn ensure_key(ks: Seq<Seq<char>>, x: Seq<char>) -> Seq<Seq<char>> {
    if ks.contains(x) {
        ks
    } else {
        ks.push(x)
    }
}

/// `acc` followed by the keys of `ks` it does not hold yet, first occurrence first.
pub open spec fn append_new(acc: Seq<Seq<char>>, ks: Seq<Seq<char>>) -> Seq<Seq<char>>
    decreases ks.len(),
{
    if ks.len() == 0 {
        acc
    } else {
        let a = append_new(acc, ks.drop_last());
        if a.contains(ks.last()) {
            a
        } else {
            a.push(ks.last())
        }
    }
}

/// Single-character keys in lower case; longer keys unchanged.
pub open spec fn lower_singles(ks: Seq<Seq<char>>) -> Seq<Seq<char>> {
    ks.map_values(|k: Seq<char>| if k.len() == 1 { crate::text::lowercase_of(k) } else { k })
}

/// The key `a` turned into `A`.
pub open spec fn upper_a(ks: Seq<Seq<char>>) -> Seq<Seq<char>> {
    ks.map_values(|k: Seq<char>| if k == "a"@ { "A"@ } else { k })
}

/// Every key before every later key.
pub open spec fn strictly_sorted(s: Seq<Seq<char>>) -> bool {
    forall|i: int, j: int| 0 <= i < j < s.len() ==> lex_lt(s[i], s[j])
}

/// The distinct keys of `ks` in order (what sorting and de-duplicating gives).
pub open spec fn sorted_set(ks: Seq<Seq<char>>) -> Seq<Seq<char>> {
    choose|r: Seq<Seq<char>>| strictly_sorted(r) && r.to_set() == ks.to_set()
}

/// Two sorted lists of distinct keys with the same keys are equal.
pub proof fn lemma_sorted_unique(a: Seq<Seq<char>>, b: Seq<Seq<char>>)
    requires
        strictly_sorted(a),
        strictly_sorted(b),
        a.to_set() == b.to_set(),
    ensures
        a == b,
    decreases a.len(),
{
    if a.len() == 0 {
        if b.len() > 0 {
            assert(b.to_set().contains(b[0]));
            assert(a.contains(b[0]));
        }
        assert(a =~= b);
    } else {
        if b.len() == 0 {
            assert(a.to_set().contains(a[0]));
            assert(b.contains(a[0]));
        }
        assert(a.to_set().contains(a[0]));
        assert(b.contains(a[0]));
        assert(b.to_set().contains(b[0]));
        assert(a.contains(b[0]));
        let j = choose|j: int| 0 <= j < b.len() && b[j] == a[0];
        let i = choose|i: int| 0 <= i < a.len() && a[i] == b[0];
        if a[0] != b[0] {
            assert(i > 0 && j > 0);
            assert(lex_lt(a[0], a[i]));
            assert(lex_lt(b[0], b[j]));
            lemma_lex_asymmetric(a[0], b[0]);
        }
        let ta = a.drop_first();
        let tb = b.drop_first();
        assert forall|x: Seq<char>| ta.to_set().contains(x) implies tb.to_set().contains(x) by {
            let k = choose|k: int| 0 <= k < ta.len() && ta[k] == x;
            assert(a[k + 1] == x);
            assert(lex_lt(a[0], x));
            lemma_lex_irreflexive(x);
            assert(a.to_set().contains(x));
            assert(b.contains(x));
            let l = choose|l: int| 0 <= l < b.len() && b[l] == x;
            assert(l != 0);
            assert(tb[l - 1] == x);
        }
        assert forall|x: Seq<char>| tb.to_set().contains(x) implies ta.to_set().contains(x) by {
            let k = choose|k: int| 0 <= k < tb.len() && tb[k] == x;
            assert(b[k + 1] == x);
            assert(lex_lt(b[0], x));
            lemma_lex_irreflexive(x);
            assert(b.to_set().contains(x));
            assert(a.contains(x));
            let l = choose|l: int| 0 <= l < a.len() && a[l] == x;
            assert(l != 0);
            assert(ta[l - 1] == x);
        }
        assert(ta.to_set() =~= tb.to_set());
        assert(strictly_sorted(ta)) by {
            assert forall|i: int, j: int| 0 <= i < j < ta.len() implies lex_lt(ta[i], ta[j]) by {
                assert(lex_lt(a[i + 1], a[j + 1]));
            }
        }
        assert(strictly_sorted(tb)) by {
            assert forall|i: int, j: int| 0 <= i < j < tb.len() implies lex_lt(tb[i], tb[j]) by {
                assert(lex_lt(b[i + 1], b[j + 1]));
            }
        }
        lemma_sorted_unique(ta, tb);
        assert(a =~= seq![a[0]] + ta);
        assert(b =~= seq![b[0]] + tb);
    }
}

/// Keys without `a` and `b`.
fn without_keys(ks: &Vec<String>, a: &str, b: &str) -> (res: Vec<String>)
    ensures
        strs(res@) == drop_keys(strs(ks@), a@, b@),
{
    let mut res: Vec<String> = Vec::new();
    let mut i: usize = 0;
    while i < ks.len()
        invariant
            i <= ks.len(),
            strs(res@) == drop_keys(strs(ks@).subrange(0, i as int), a@, b@),
        decreases ks.len() - i,
    {
        let ghost pre = strs(ks@).subrange(0, i as int);
        assert(strs(ks@).subrange(0, i + 1).drop_last() =~= pre);
        assert(strs(ks@).subrange(0, i + 1).last() == ks@[i as int]@);
        if !(str_eq(ks[i].as_str(), a) || str_eq(ks[i].as_str(), b)) {
            let ghost before = strs(res@);
            res.push(ks[i].clone());
            assert(strs(res@) =~= before.push(ks@[i as int]@));
        }
        i = i + 1;
    }
    assert(strs(ks@).subrange(0, ks.len() as int) =~= strs(ks@));
    res
}

/// Keys with `x` appended unless present.
fn with_key(ks: Vec<String>, x: &str) -> (res: Vec<String>)
    ensures
        strs(res@) == ensure_key(strs(ks@), x@),
{
    let mut ks = ks;
    if !has_key(&ks, x) {
        let ghost before = strs(ks@);
        ks.push(st(x));
        assert(strs(ks@) =~= before.push(x@));
    }
    ks
}

/// Appends the keys of `ks` that `acc` does not hold yet.
fn append_missing(acc: &mut Vec<String>, ks: &Vec<String>)
    ensures
        strs(final(acc)@) == append_new(strs(old(acc)@), strs(ks@)),
{
    let ghost start = strs(acc@);
    let mut i: usize = 0;
    while i < ks.len()
        invariant
            i <= ks.len(),
            strs(acc@) == append_new(start, strs(ks@).subrange(0, i as int)),
        decreases ks.len() - i,
    {
        assert(strs(ks@).subrange(0, i + 1).drop_last() =~= strs(ks@).subrange(0, i as int));
        assert(strs(ks@).subrange(0, i + 1).last() == ks@[i as int]@);
        if !has_key(acc, ks[i].as_str()) {
            let ghost before = strs(acc@);
            acc.push(ks[i].clone());
            assert(strs(acc@) =~= before.push(ks@[i as int]@));
        }
        i = i + 1;
    }
    assert(strs(ks@).subrange(0, ks.len() as int) =~= strs(ks@));
}

/// Single-character keys in lower case.
fn lower_single_keys(ks: &Vec<String>) -> (res: Vec<String>)
    ensures
        strs(res@) == lower_singles(strs(ks@)),
{
    let mut res: Vec<String> = Vec::new();
    let mut i: usize = 0;
    while i < ks.len()
        invariant
            i <= ks.len(),
            res.len() == i,
            forall|j: int| 0 <= j < i ==> #[trigger] res@[j]@ == (if ks@[j]@.len() == 1 {
                crate::text::lowercase_of(ks@[j]@)
            } else {
                ks@[j]@
            }),
        decreases ks.len() - i,
    {
        let k = if ks[i].as_str().unicode_len() == 1 {
            crate::text::to_lowercase(ks[i].as_str())
        } else {
            ks[i].clone()
        };
        res.push(k);
        i = i + 1;
    }
    assert(strs(res@) =~= lower_singles(strs(ks@)));
    res
}

/// The key `a` turned into `A`.
fn upper_a_keys(ks: &Vec<String>) -> (res: Vec<String>)
    ensures
        strs(res@) == upper_a(strs(ks@)),
{
    let mut res: Vec<String> = Vec::new();
    let mut i: usize = 0;
    while i < ks.len()
        invariant
            i <= ks.len(),
            res.len() == i,
            forall|j: int| 0 <= j < i ==> #[trigger] res@[j]@ == (if ks@[j]@ == "a"@ { "A"@ } else { ks@[j]@ }),
        decreases ks.len() - i,
    {
        let k = if str_eq(ks[i].as_str(), "a") { st("A") } else { ks[i].clone() };
        res.push(k);
        i = i + 1;
    }
    assert(strs(res@) =~= upper_a(strs(ks@)));
    res
}

/// Inserting a key at its place keeps a sorted list of distinct keys sorted.
proof fn lemma_sorted_insert(r0: Seq<Seq<char>>, p: int, k: Seq<char>)
    requires
        strictly_sorted(r0),
        0 <= p <= r0.len(),
        forall|q: int| 0 <= q < p ==> lex_lt(#[trigger] r0[q], k),
        p < r0.len() ==> lex_lt(k, r0[p]),
    ensures
        strictly_sorted(r0.insert(p, k)),
        r0.insert(p, k).to_set() == r0.to_set().insert(k),
{
    let r1 = r0.insert(p, k);
    r0.insert_ensures(p, k);
    assert forall|a: int, b: int| 0 <= a < b < r1.len() implies lex_lt(r1[a], r1[b]) by {
        if b < p {
            assert(r1[a] == r0[a] && r1[b] == r0[b]);
        } else if b == p {
            assert(r1[a] == r0[a]);
        } else if a == p {
            assert(r1[b] == r0[b - 1]);
            if b - 1 > p {
                lemma_lex_transitive(k, r0[p], r0[b - 1]);
            }
        } else if a < p {
            assert(r1[a] == r0[a]);
            assert(r1[b] == r0[b - 1]);
        } else {
            assert(r1[a] == r0[a - 1]);
            assert(r1[b] == r0[b - 1]);
        }
    }
    assert forall|x: Seq<char>| r1.to_set().contains(x) == r0.to_set().insert(k).contains(x) by {
        if r1.contains(x) {
            let q = choose|q: int| 0 <= q < r1.len() && r1[q] == x;
            if q < p {
                assert(r0[q] == x);
            } else if q > p {
                assert(r0[q - 1] == x);
            }
        }
        if r0.contains(x) {
            let q = choose|q: int| 0 <= q < r0.len() && r0[q] == x;
            if q < p {
                assert(r1[q] == x);
            } else {
                assert(r1[q + 1] == x);
            }
        }
        if x == k {
            assert(r1[p] == x);
        }
    }
    assert(r1.to_set() =~= r0.to_set().insert(k));
}

proof fn lemma_push_to_set(s: Seq<Seq<char>>, k: Seq<char>)
    ensures
        s.push(k).to_set() == s.to_set().insert(k),
{
    assert forall|x: Seq<char>| s.push(k).to_set().contains(x) == s.to_set().insert(k).contains(x) by {
        if s.push(k).contains(x) {
            let q = choose|q: int| 0 <= q < s.push(k).len() && s.push(k)[q] == x;
            if q < s.len() {
                assert(s[q] == x);
            }
        }
        if s.contains(x) {
            let q = choose|q: int| 0 <= q < s.len() && s[q] == x;
            assert(s.push(k)[q] == x);
        }
        if x == k {
            assert(s.push(k)[s.len() as int] == x);
        }
    }
    assert(s.push(k).to_set() =~= s.to_set().insert(k));
}

/// The distinct keys in order.
fn sort_dedup(v: &Vec<String>) -> (res: Vec<String>)
    ensures
        strictly_sorted(strs(res@)),
        strs(res@).to_set() == strs(v@).to_set(),
        strs(res@) == sorted_set(strs(v@)),
{
    let mut res: Vec<String> = Vec::new();
    let mut i: usize = 0;
    assert(strs(res@).to_set() =~= strs(v@).subrange(0, 0).to_set());
    while i < v.len()
        invariant
            i <= v.len(),
            strictly_sorted(strs(res@)),
            strs(res@).to_set() == strs(v@).subrange(0, i as int).to_set(),
        decreases v.len() - i,
    {
        let ghost r0 = strs(res@);
        let ghost k = v@[i as int]@;
        assert(strs(v@).subrange(0, i + 1) =~= strs(v@).subrange(0, i as int).push(k));
        proof {
            lemma_push_to_set(strs(v@).subrange(0, i as int), k);
        }
        let mut p: usize = 0;
        while p < res.len() && lex_less(res[p].as_str(), v[i].as_str())
            invariant
                i < v.len(),
                p <= res.len(),
                r0 == strs(res@),
                k == v@[i as int]@,
                forall|q: int| 0 <= q < p ==> lex_lt(#[trigger] r0[q], k),
            decreases res.len() - p,
        {
            p = p + 1;
        }
        if p < res.len() && str_eq(res[p].as_str(), v[i].as_str()) {
            assert(r0[p as int] == k);
            assert(r0.to_set().contains(k));
            assert(r0.to_set().insert(k) =~= r0.to_set());
        } else {
            proof {
                if p < r0.len() {
                    lemma_lex_total(r0[p as int], k);
                }
                lemma_sorted_insert(r0, p as int, k);
            }
            res.insert(p, v[i].clone());
            assert(strs(res@) =~= r0.insert(p as int, k));
        }
        i = i + 1;
    }
    assert(strs(v@).subrange(0, v.len() as int) =~= strs(v@));
    proof {
        let r = strs(res@);
        let c = sorted_set(strs(v@));
        assert(strictly_sorted(r) && r.to_set() == strs(v@).to_set());
        assert(strictly_sorted(c) && c.to_set() == strs(v@).to_set());
        lemma_sorted_unique(r, c);
    }
    res
}

} // verus!

verus! {

// ---------------------------------------------------------------------------
// migration of older binding files
// ---------------------------------------------------------------------------

/// Whether the keys of action `n` hold `k`.
pub open spec fn binds_key(m: Map<Seq<char>, ActionView>, n: Seq<char>, k: Seq<char>) -> bool {
    m.dom().contains(n) && m[n].keys.contains(k)
}

/// A binding file written by an older version: an action is missing or
/// misconfigured, an action of an older name is present, or a tab has an
/// older name.
pub open spec fn needs_migration_spec(m: Map<Seq<char>, ActionView>) -> bool {
    ||| !m.dom().contains("Execute Action"@)
    ||| !(m["Execute Action"@].keys.contains("<Enter>"@) && m["Execute Action"@].tab == "settings"@)
    ||| !m.dom().contains("Toggle Help"@)
    ||| !m.dom().contains("Open Cloud"@)
    ||| !m.dom().contains("Add Folder"@)
    ||| !m.dom().contains("Create Cloud"@)
    ||| !m.dom().contains("Remove Folder / Cloud"@)
    ||| !m.dom().contains("Select All Folders"@)
    ||| !m.dom().contains("Set Cloud Password"@)
    ||| !m.dom().contains("Reload Storage Config"@)
    ||| m.dom().contains("Create New"@)
    ||| m.dom().contains("Add Source / Cloud"@)
    ||| m.dom().contains("Remove Source"@)
    ||| m.dom().contains("Remove Cloud"@)
    ||| m.dom().contains("Delete Folder"@)
    ||| m.dom().contains("Delete Cloud"@)
    ||| m.dom().contains("Select All Sources"@)
    ||| m.dom().contains("Create Password"@)
    ||| m.dom().contains("Set Password"@)
    ||| m.dom().contains("Reload Clouds Config"@)
    ||| binds_key(m, "Toggle Selection"@, "<leader>"@)
    ||| binds_key(m, "Toggle Selection"@, " "@)
    ||| binds_key(m, "Navigate to Top"@, "g"@)
    ||| exists|n: Seq<char>| m.dom().contains(n) && #[trigger] has_old_tab_name(m[n].tab)
}

/// Renaming action `old` to `new`: dropped when `new` exists, moved otherwise.
pub open spec fn rename_spec(m: Map<Seq<char>, ActionView>, old: Seq<char>, new: Seq<char>) -> Map<
    Seq<char>,
    ActionView,
> {
    if m.dom().contains(new) {
        m.remove(old)
    } else if m.dom().contains(old) {
        m.remove(old).insert(new, m[old])
    } else {
        m
    }
}

/// "Create Cloud" keeps the keys of the first of its older names present.
pub open spec fn create_cloud_step(m: Map<Seq<char>, ActionView>) -> Map<Seq<char>, ActionView> {
    let keys = if m.dom().contains("Create Cloud"@) {
        m["Create Cloud"@].keys
    } else if m.dom().contains("Add Source / Cloud"@) {
        m["Add Source / Cloud"@].keys
    } else if m.dom().contains("Create New"@) {
        m["Create New"@].keys
    } else {
        seq!["n"@]
    };
    m.remove("Create Cloud"@).remove("Add Source / Cloud"@).remove("Create New"@).insert(
        "Create Cloud"@,
        av(keys, "storage"@),
    )
}

/// "Add Folder" is added when missing.
pub open spec fn add_folder_step(m: Map<Seq<char>, ActionView>) -> Map<Seq<char>, ActionView> {
    if m.dom().contains("Add Folder"@) {
        m
    } else {
        m.insert("Add Folder"@, av(seq!["a"@], "storage"@))
    }
}

/// The first present of the names that "Remove Folder / Cloud" replaces.
pub open spec fn remove_item_source(m: Map<Seq<char>, ActionView>) -> Option<Seq<char>> {
    if m.dom().contains("Remove Folder / Cloud"@) {
        Some("Remove Folder / Cloud"@)
    } else if m.dom().contains("Remove Item"@) {
        Some("Remove Item"@)
    } else if m.dom().contains("Remove Source"@) {
        Some("Remove Source"@)
    } else if m.dom().contains("Delete Folder"@) {
        Some("Delete Folder"@)
    } else {
        None
    }
}

/// "Remove Folder / Cloud" takes over the keys of the first of its older
/// names, single-character keys in lower case, sorted and without repeats.
pub open spec fn remove_item_step(m: Map<Seq<char>, ActionView>) -> Map<Seq<char>, ActionView> {
    let found = remove_item_source(m);
    let keys0 = match found {
        Some(n) => m[n].keys,
        None => seq!["d"@, "x"@],
    };
    let m1 = match found {
        Some(n) => m.remove(n),
        None => m,
    };
    m1.remove("Remove Source"@).remove("Delete Folder"@).remove("Remove Cloud"@).remove(
        "Delete Cloud"@,
    ).insert("Remove Folder / Cloud"@, av(sorted_set(lower_singles(keys0)), "storage"@))
}

/// "Select All Folders" takes over the keys of "Select All Sources", with
/// `a` turned into `A`.
pub open spec fn select_all_step(m: Map<Seq<char>, ActionView>) -> Map<Seq<char>, ActionView> {
    let keys0 = if m.dom().contains("Select All Folders"@) {
        m["Select All Folders"@].keys
    } else if m.dom().contains("Select All Sources"@) {
        m["Select All Sources"@].keys
    } else {
        seq!["A"@]
    };
    m.remove("Select All Folders"@).remove("Select All Sources"@).insert(
        "Select All Folders"@,
        av(upper_a(keys0), "storage"@),
    )
}

/// "Toggle Selection" loses the leader and space keys and gains `v`.
pub open spec fn toggle_selection_step(m: Map<Seq<char>, ActionView>) -> Map<Seq<char>, ActionView> {
    if m.dom().contains("Toggle Selection"@) {
        m.insert(
            "Toggle Selection"@,
            av(
                ensure_key(drop_keys(m["Toggle Selection"@].keys, "<leader>"@, " "@), "v"@),
                m["Toggle Selection"@].tab,
            ),
        )
    } else {
        m
    }
}

/// "Navigate to Top" loses `g` and gains `gg`.
pub open spec fn navigate_top_step(m: Map<Seq<char>, ActionView>) -> Map<Seq<char>, ActionView> {
    if m.dom().contains("Navigate to Top"@) {
        m.insert(
            "Navigate to Top"@,
            av(
                ensure_key(drop_keys(m["Navigate to Top"@].keys, "g"@, "g"@), "gg"@),
                m["Navigate to Top"@].tab,
            ),
        )
    } else {
        m
    }
}

/// The keys of action `n`, or none.
pub open spec fn keys_or_empty(m: Map<Seq<char>, ActionView>, n: Seq<char>) -> Seq<Seq<char>> {
    if m.dom().contains(n) {
        m[n].keys
    } else {
        Seq::<Seq<char>>::empty()
    }
}

/// "Set Cloud Password" collects the keys of its older names without
/// repeats, `p` when there are none, and applies to dashboard and storage.
pub open spec fn password_step(m: Map<Seq<char>, ActionView>) -> Map<Seq<char>, ActionView> {
    let collected = append_new(
        append_new(
            append_new(Seq::<Seq<char>>::empty(), keys_or_empty(m, "Create Password"@)),
            keys_or_empty(m, "Set Password"@),
        ),
        keys_or_empty(m, "Set Cloud Password"@),
    );
    let keys = if collected.len() == 0 {
        seq!["p"@]
    } else {
        collected
    };
    m.remove("Create Password"@).remove("Set Password"@).remove("Set Cloud Password"@).insert(
        "Set Cloud Password"@,
        av(keys, "dashboard,storage"@),
    )
}

/// Missing default actions are added; present ones stay.
pub open spec fn defaults_step(m: Map<Seq<char>, ActionView>) -> Map<Seq<char>, ActionView> {
    default_actions().union_prefer_right(m)
}

/// The bindings after migration.
pub open spec fn migrated(m: Map<Seq<char>, ActionView>) -> Map<Seq<char>, ActionView> {
    defaults_step(
        password_step(
            navigate_top_step(
                toggle_selection_step(
                    select_all_step(
                        remove_item_step(
                            add_folder_step(
                                create_cloud_step(
                                    rename_spec(
                                        retab_all_spec(m),
                                        "Reload Clouds Config"@,
                                        "Reload Storage Config"@,
                                    ),
                                ),
                            ),
                        ),
                    ),
                ),
            ),
        ),
    )
}

/// Whether action `n` binds key `k`.
fn map_binds(m: &ActionMap, n: &str, k: &str) -> (res: bool)
    ensures
        res == binds_key(m@, n@, k@),
{
    match m.get(n) {
        Some(a) => has_key(&a.keys, k),
        None => false,
    }
}

/// The keys of action `n`, or none.
fn keys_of(m: &ActionMap, n: &str) -> (res: Vec<String>)
    ensures
        strs(res@) == keys_or_empty(m@, n@),
{
    match m.get(n) {
        Some(a) => copy_keys(&a.keys),
        None => {
            let v: Vec<String> = Vec::new();
            assert(strs(v@) =~= Seq::<Seq<char>>::empty());
            v
        },
    }
}

impl Config {
    /// Whether the bindings come from an older version and need migration.
    pub fn needs_migration(&self) -> (res: bool)
        ensures
            res == needs_migration_spec(self.actions@),
    {
        let m = &self.actions;
        let exec_ok = match m.get("Execute Action") {
            Some(a) => has_key(&a.keys, "<Enter>") && str_eq(a.tab.as_str(), "settings"),
            None => false,
        };
        if !m.contains_key("Execute Action") || !exec_ok || !m.contains_key("Toggle Help")
            || !m.contains_key("Open Cloud") || !m.contains_key("Add Folder") || !m.contains_key(
            "Create Cloud",
        ) || !m.contains_key("Remove Folder / Cloud") || !m.contains_key("Select All Folders")
            || !m.contains_key("Set Cloud Password") || !m.contains_key("Reload Storage Config")
            || m.contains_key("Create New") || m.contains_key("Add Source / Cloud")
            || m.contains_key("Remove Source") || m.contains_key("Remove Cloud") || m.contains_key(
            "Delete Folder",
        ) || m.contains_key("Delete Cloud") || m.contains_key("Select All Sources")
            || m.contains_key("Create Password") || m.contains_key("Set Password")
            || m.contains_key("Reload Clouds Config") || map_binds(m, "Toggle Selection", "<leader>")
            || map_binds(m, "Toggle Selection", " ") || map_binds(m, "Navigate to Top", "g") {
            return true;
        }
        let entries = m.entries();
        let ghost names = m.names();
        let mut i: usize = 0;
        assert forall|j: int|
            0 <= j < entries.len() implies #[trigger] m@.dom().contains(names[j]) && m@[names[j]]
                == entries@[j].1@ by {
            assert(entries@[j].0@ == names[j]);
            assert(entries@[j].1@ == m.action_at(j));
            assert(m@.dom().contains(m.names()[j]));
        }
        while i < entries.len()
            invariant
                m@ == self.actions@,
                names == m.names(),
                names.len() == entries.len(),
                forall|j: int| 0 <= j < entries.len() ==> #[trigger] entries@[j].0@ == names[j],
                forall|j: int|
                    0 <= j < entries.len() ==> #[trigger] m@.dom().contains(names[j]) && m@[names[j]]
                        == entries@[j].1@,
                forall|k: Seq<char>| #[trigger]
                    m@.dom().contains(k) ==> exists|j: int| 0 <= j < names.len() && names[j] == k,
                i <= entries.len(),
                forall|j: int| 0 <= j < i ==> !has_old_tab_name(#[trigger] m@[names[j]].tab),
            decreases entries.len() - i,
        {
            assert(m@.dom().contains(names[i as int]));
            if tab_has_old_name(entries[i].1.tab.as_str()) {
                assert(has_old_tab_name(m@[names[i as int]].tab));
                return true;
            }
            i = i + 1;
        }
        assert forall|n: Seq<char>| m@.dom().contains(n) implies !#[trigger] has_old_tab_name(m@[n].tab) by {
            let j = choose|j: int| 0 <= j < names.len() && names[j] == n;
            assert(m@.dom().contains(names[j]));
        }
        false
    }

    /// Renames action `old_name` to `new_name`; when `new_name` exists the
    /// old action is dropped instead.
    pub fn rename_action(&mut self, old_name: &str, new_name: &str)
        ensures
            final(self)@.leader == old(self)@.leader,
            final(self)@.actions == rename_spec(old(self)@.actions, old_name@, new_name@),
    {
        if self.actions.contains_key(new_name) {
            self.actions.remove(old_name);
        } else {
            match self.actions.remove(old_name) {
                Some(a) => {
                    self.actions.insert(st(new_name), a);
                },
                None => {},
            }
        }
    }

    /// Brings older bindings up to date: tab names renamed, actions of older
    /// names merged into their current names, stray keys fixed, and missing
    /// default actions added.
    pub fn migrate_to_latest(&mut self)
        ensures
            final(self)@.leader == old(self)@.leader,
            final(self)@.actions == migrated(old(self)@.actions),
    {
        let ghost m0 = self.actions@;
        self.actions.retab_all();
        self.rename_action("Reload Clouds Config", "Reload Storage Config");
        let ghost m2 = self.actions@;
        assert(m2 == rename_spec(retab_all_spec(m0), "Reload Clouds Config"@, "Reload Storage Config"@));

        // Create Cloud
        let cc_keys = match self.actions.get("Create Cloud") {
            Some(a) => copy_keys(&a.keys),
            None => match self.actions.get("Add Source / Cloud") {
                Some(a) => copy_keys(&a.keys),
                None => match self.actions.get("Create New") {
                    Some(a) => copy_keys(&a.keys),
                    None => keys1("n"),
                },
            },
        };
        self.actions.remove("Create Cloud");
        self.actions.remove("Add Source / Cloud");
        self.actions.remove("Create New");
        bind(&mut self.actions, "Create Cloud", cc_keys, "storage");
        let ghost m3 = self.actions@;
        assert(m3 == create_cloud_step(m2));

        // Add Folder
        if !self.actions.contains_key("Add Folder") {
            bind(&mut self.actions, "Add Folder", keys1("a"), "storage");
        }
        let ghost m4 = self.actions@;
        assert(m4 == add_folder_step(m3));

        // Remove Folder / Cloud
        let found: Option<Action> = if self.actions.contains_key("Remove Folder / Cloud") {
            self.actions.remove("Remove Folder / Cloud")
        } else if self.actions.contains_key("Remove Item") {
            self.actions.remove("Remove Item")
        } else if self.actions.contains_key("Remove Source") {
            self.actions.remove("Remove Source")
        } else if self.actions.contains_key("Delete Folder") {
            self.actions.remove("Delete Folder")
        } else {
            None
        };
        self.actions.remove("Remove Source");
        self.actions.remove("Delete Folder");
        self.actions.remove("Remove Cloud");
        self.actions.remove("Delete Cloud");
        let keys0 = match found {
            Some(a) => a.keys,
            None => keys2("d", "x"),
        };
        let lowered = lower_single_keys(&keys0);
        let remove_keys = sort_dedup(&lowered);
        bind(&mut self.actions, "Remove Folder / Cloud", remove_keys, "storage");
        let ghost m5 = self.actions@;
        assert(m5 == remove_item_step(m4));

        // Select All Folders
        let sa_keys = match self.actions.get("Select All Folders") {
            Some(a) => copy_keys(&a.keys),
            None => match self.actions.get("Select All Sources") {
                Some(a) => copy_keys(&a.keys),
                None => keys1("A"),
            },
        };
        self.actions.remove("Select All Folders");
        self.actions.remove("Select All Sources");
        let sa_keys = upper_a_keys(&sa_keys);
        bind(&mut self.actions, "Select All Folders", sa_keys, "storage");
        let ghost m6 = self.actions@;
        assert(m6 == select_all_step(m5));

        // Toggle Selection
        let ts = match self.actions.get("Toggle Selection") {
            Some(a) => Some((with_key(without_keys(&a.keys, "<leader>", " "), "v"), copy_str(a.tab.as_str()))),
            None => None,
        };
        match ts {
            Some((keys, tab)) => {
                self.actions.insert(st("Toggle Selection"), Action::new(keys, tab));
            },
            None => {},
        }
        let ghost m7 = self.actions@;
        assert(m7 == toggle_selection_step(m6));

        // Navigate to Top
        let nt = match self.actions.get("Navigate to Top") {
            Some(a) => Some((with_key(without_keys(&a.keys, "g", "g"), "gg"), copy_str(a.tab.as_str()))),
            None => None,
        };
        match nt {
            Some((keys, tab)) => {
                self.actions.insert(st("Navigate to Top"), Action::new(keys, tab));
            },
            None => {},
        }
        let ghost m8 = self.actions@;
        assert(m8 == navigate_top_step(m7));

        // Set Cloud Password
        let mut password_keys: Vec<String> = Vec::new();
        assert(strs(password_keys@) =~= Seq::<Seq<char>>::empty());
        let k1 = keys_of(&self.actions, "Create Password");
        let k2 = keys_of(&self.actions, "Set Password");
        let k3 = keys_of(&self.actions, "Set Cloud Password");
        append_missing(&mut password_keys, &k1);
        append_missing(&mut password_keys, &k2);
        append_missing(&mut password_keys, &k3);
        if password_keys.len() == 0 {
            password_keys = keys1("p");
        }
        self.actions.remove("Create Password");
        self.actions.remove("Set Password");
        self.actions.remove("Set Cloud Password");
        bind(&mut self.actions, "Set Cloud Password", password_keys, "dashboard,storage");
        let ghost m9 = self.actions@;
        assert(m9 == password_step(m8));

        // Defaults
        self.add_missing_defaults();
    }

    /// Adds each default action whose name is missing.
    fn add_missing_defaults(&mut self)
        ensures
            final(self)@.leader == old(self)@.leader,
            final(self)@.actions == defaults_step(old(self)@.actions),
    {
        let ghost m = self.actions@;
        let defaults = default_action_map();
        let d = defaults.entries();
        let ghost dm = defaults@;
        let ghost dn = defaults.names();
        let mut i: usize = 0;
        assert forall|j: int|
            0 <= j < d.len() implies #[trigger] dm.dom().contains(dn[j]) && dm[dn[j]] == d@[j].1@ by {
            assert(d@[j].0@ == dn[j]);
            assert(d@[j].1@ == defaults.action_at(j));
            assert(dm.dom().contains(defaults.names()[j]));
        }
        assert(dm.restrict(dn.subrange(0, 0).to_set()).union_prefer_right(m) =~= m);
        while i < d.len()
            invariant
                dm == default_actions(),
                dn == defaults.names(),
                dn.len() == d.len(),
                dn.no_duplicates(),
                forall|j: int| 0 <= j < d.len() ==> #[trigger] d@[j].0@ == dn[j],
                forall|j: int|
                    0 <= j < d.len() ==> #[trigger] dm.dom().contains(dn[j]) && dm[dn[j]] == d@[j].1@,
                forall|k: Seq<char>| #[trigger]
                    dm.dom().contains(k) ==> exists|j: int| 0 <= j < dn.len() && dn[j] == k,
                i <= d.len(),
                self@.leader == old(self)@.leader,
                self.actions@ == dm.restrict(dn.subrange(0, i as int).to_set()).union_prefer_right(m),
            decreases d.len() - i,
        {
            let ghost before = self.actions@;
            let name = d[i].0.clone();
            let action = d[i].1.copy();
            assert(dm.dom().contains(dn[i as int]));
            self.actions.insert_if_absent(name, action);
            proof {
                let s0 = dn.subrange(0, i as int).to_set();
                let s1 = dn.subrange(0, i + 1).to_set();
                assert(dn.subrange(0, i + 1) =~= dn.subrange(0, i as int).push(dn[i as int]));
                lemma_push_to_set(dn.subrange(0, i as int), dn[i as int]);
                assert(!s0.contains(dn[i as int])) by {
                    if s0.contains(dn[i as int]) {
                        let q = choose|q: int| 0 <= q < i && dn.subrange(0, i as int)[q] == dn[i as int];
                        assert(dn[q] == dn[i as int]);
                    }
                }
                assert(self.actions@ =~= dm.restrict(s1).union_prefer_right(m));
            }
            i = i + 1;
        }
        proof {
            assert forall|k: Seq<char>| dm.dom().contains(k) implies dn.subrange(0, d.len() as int).to_set().contains(k) by {
                let j = choose|j: int| 0 <= j < dn.len() && dn[j] == k;
                assert(dn.subrange(0, d.len() as int)[j] == k);
            }
            assert(dm.restrict(dn.subrange(0, d.len() as int).to_set()) =~= dm);
        }
    }

    /// What loading the front end's configuration settles on, given what
    /// reading and parsing the file gave: a loaded file is migrated when it
    /// needs it, and anything unreadable falls back to the defaults. The
    /// flag says whether the result should be written back.
    pub fn load_or_default(loaded: Result<Config, TuiError>) -> (res: (Config, bool))
        ensures
            match loaded {
                Ok(c) => if needs_migration_spec(c@.actions) {
                    res.0@.leader == c@.leader && res.0@.actions == migrated(c@.actions) && res.1
                } else {
                    res.0@ == c@ && !res.1
                },
                Err(_) => res.0@.leader == " "@ && res.0@.actions == default_actions() && res.1,
            },
    {
        match loaded {
            Ok(c) => {
                let mut c = c;
                if c.needs_migration() {
                    c.migrate_to_latest();
                    (c, true)
                } else {
                    (c, false)
                }
            },
            Err(_) => (Config::default(), true),
        }
    }
}

} // verus!
