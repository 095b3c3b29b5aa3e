//! Searching within a list: typing narrows the list to the items whose text
//! contains the query (ignoring case), the arrows move among them, Enter
//! keeps the choice and Escape restores the previous selection.
use vstd::prelude::*;
use crate::key::Key;
use crate::settings::{SettingsAction, settings_description, settings_title};
use crate::text::{concat_str, contains_seq, lowercase_of, pop_char, push_char, str_contains, to_lowercase};

verus! {

/// The lists that can be searched.
#[derive(Debug, Clone, Copy, PartialEq, Eq, Structural)]
pub enum SearchTarget {
    DashboardServices,
    DashboardActivity,
    StorageFolders,
    StorageClouds,
    Settings,
    CloudEditFolders,
}

/// A search in progress.
pub struct ListSearch {
    pub target: SearchTarget,
    pub query: String,
    /// The item that Enter would select.
    pub selected_index: Option<usize>,
    /// The selection before the search, restored by Escape.
    pub previous_selected_index: Option<usize>,
}

/// Whether an item's text matches a query, ignoring case.
pub open spec fn text_matches(text: Seq<char>, query: Seq<char>) -> bool {
    contains_seq(lowercase_of(text), lowercase_of(query))
}

/// The positions of the items that match, in order.
pub open spec fn matching(texts: Seq<Seq<char>>, query: Seq<char>) -> Seq<usize>
    decreases texts.len(),
{
    if texts.len() == 0 {
        Seq::empty()
    } else {
        let rest = matching(texts.drop_last(), query);
        if text_matches(texts.last(), query) {
            rest.push((texts.len() - 1) as usize)
        } else {
            rest
        }
    }
}

/// The characters of a list of strings.
pub open spec fn views(v: Seq<String>) -> Seq<Seq<char>> {
    v.map_values(|s: String| s@)
}

/// Keeps `selected` when it is among the matches, else takes the first
/// match, if any.
pub open spec fn keep_or_first(selected: Option<usize>, indices: Seq<usize>) -> Option<usize> {
    match selected {
        Some(i) => if indices.contains(i) {
            Some(i)
        } else if indices.len() > 0 {
            Some(indices[0])
        } else {
            None
        },
        None => if indices.len() > 0 {
            Some(indices[0])
        } else {
            None
        },
    }
}

/// Position of the first `x` in `s`, or -1.
pub open spec fn first_pos(s: Seq<usize>, x: usize) -> int
    decreases s.len(),
{
    if s.len() == 0 {
        -1
    } else if s[0] == x {
        0
    } else {
        let r = first_pos(s.drop_first(), x);
        if r < 0 {
            -1
        } else {
            r + 1
        }
    }
}

proof fn lemma_first_pos(s: Seq<usize>, x: usize)
    ensures
        -1 <= first_pos(s, x) < s.len(),
        first_pos(s, x) >= 0 ==> s[first_pos(s, x)] == x,
        first_pos(s, x) >= 0 ==> forall|q: int| 0 <= q < first_pos(s, x) ==> s[q] != x,
        first_pos(s, x) < 0 <==> !s.contains(x),
    decreases s.len(),
{
    if s.len() > 0 && s[0] != x {
        lemma_first_pos(s.drop_first(), x);
        if first_pos(s.drop_first(), x) < 0 {
            assert forall|q: int| 0 <= q < s.len() implies s[q] != x by {
                if q > 0 {
                    assert(s.drop_first()[q - 1] == s[q]);
                }
            }
        } else {
            assert(s.drop_first().contains(x) ==> s.contains(x)) by {
                if s.drop_first().contains(x) {
                    let q = choose|q: int| 0 <= q < s.drop_first().len() && s.drop_first()[q] == x;
                    assert(s[q + 1] == x);
                }
            }
            assert forall|q: int| 0 <= q < first_pos(s, x) implies s[q] != x by {
                if q > 0 {
                    assert(s.drop_first()[q - 1] == s[q]);
                }
            }
        }
    } else if s.len() > 0 {
        assert(s.contains(x)) by {
            assert(s[0] == x);
        }
    }
}

/// Position of the selection among the matches, or 0.
pub open spec fn position_or_zero(s: Seq<usize>, x: Option<usize>) -> nat {
    match x {
        Some(i) => if first_pos(s, i) >= 0 {
            first_pos(s, i) as nat
        } else {
            0
        },
        None => 0,
    }
}

/// Where the arrows move the selection among the matches.
pub open spec fn moved(indices: Seq<usize>, selected: Option<usize>, next: bool) -> Option<usize> {
    let p = position_or_zero(indices, selected);
    if indices.len() == 0 {
        None
    } else if next {
        Some(indices[if p + 1 < indices.len() { p + 1 as int } else { indices.len() - 1 as int }])
    } else {
        Some(indices[if p == 0 { 0 } else { p - 1 as int }])
    }
}

/// The positions of the items whose text contains `query`, ignoring case;
/// an empty query matches every item.
pub fn filtered_indices(query: &str, texts: &Vec<String>) -> (res: Vec<usize>)
    ensures
        res@ == matching(views(texts@), query@),
        query@.len() == 0 ==> res@ == Seq::new(texts@.len(), |j: int| j as usize),
{
    let q = to_lowercase(query);
    let mut res: Vec<usize> = Vec::new();
    let mut i: usize = 0;
    while i < texts.len()
        invariant
            i <= texts.len(),
            q@ == lowercase_of(query@),
            query@.len() == 0 ==> q@.len() == 0,
            res@ == matching(views(texts@).take(i as int), query@),
            query@.len() == 0 ==> res@ == Seq::new(i as nat, |j: int| j as usize),
        decreases texts.len() - i,
    {
        let t = to_lowercase(texts[i].as_str());
        proof {
            assert(views(texts@).take(i + 1).drop_last() =~= views(texts@).take(i as int));
            assert(views(texts@).take(i + 1).last() == texts@[i as int]@);
            if query@.len() == 0 {
                assert(t@.subrange(0int, 0int + q@.len()) =~= q@);
                assert(contains_seq(t@, q@));
            }
        }
        let ghost before = res@;
        if str_contains(t.as_str(), q.as_str()) {
            res.push(i);
        }
        proof {
            if query@.len() == 0 {
                assert(res@ =~= Seq::new((i + 1) as nat, |j: int| j as usize));
            }
        }
        i = i + 1;
    }
    assert(views(texts@).take(i as int) =~= views(texts@));
    res
}

fn contains_index(v: &Vec<usize>, x: usize) -> (res: bool)
    ensures
        res == v@.contains(x),
{
    let mut i: usize = 0;
    while i < v.len()
        invariant
            i <= v.len(),
            forall|j: int| 0 <= j < i ==> v@[j] != x,
        decreases v.len() - i,
    {
        if v[i] == x {
            return true;
        }
        i = i + 1;
    }
    false
}

fn choose_kept(selected: Option<usize>, indices: &Vec<usize>) -> (res: Option<usize>)
    ensures
        res == keep_or_first(selected, indices@),
{
    match selected {
        Some(i) => {
            if contains_index(indices, i) {
                return Some(i);
            }
        },
        None => {},
    }
    if indices.len() > 0 {
        Some(indices[0])
    } else {
        None
    }
}

fn position_of(v: &Vec<usize>, x: Option<usize>) -> (res: usize)
    ensures
        res == position_or_zero(v@, x),
        v@.len() > 0 ==> res < v@.len(),
{
    proof {
        if let Some(t) = x {
            lemma_first_pos(v@, t);
        }
    }
    match x {
        Some(target) => {
            let mut i: usize = 0;
            while i < v.len()
                invariant
                    i <= v.len(),
                    forall|j: int| 0 <= j < i ==> v@[j] != target,
                    x == Some(target),
                    -1 <= first_pos(v@, target) < v@.len(),
                    first_pos(v@, target) >= 0 ==> v@[first_pos(v@, target)] == target,
                    first_pos(v@, target) < 0 <==> !v@.contains(target),
                decreases v.len() - i,
            {
                if v[i] == target {
                    proof {
                        let fp = first_pos(v@, target);
                        assert(v@.contains(target));
                        assert(fp == i as int) by {
                            if fp < i {
                                assert(v@[fp] != target);
                            } else if fp > i {
                                lemma_first_pos(v@, target);
                                assert(v@[i as int] != target);
                            }
                        }
                    }
                    return i;
                }
                i = i + 1;
            }
            proof {
                assert(!v@.contains(target));
            }
            0
        },
        None => 0,
    }
}

impl ListSearch {
    /// Starts searching `target`: an empty query matches everything, and the
    /// current selection is kept when there is one.
    pub fn start(target: SearchTarget, previous_selected_index: Option<usize>, texts: &Vec<String>) -> (res: ListSearch)
        ensures
            res.target == target,
            res.query@.len() == 0,
            res.previous_selected_index == previous_selected_index,
            res.selected_index == keep_or_first(previous_selected_index, matching(views(texts@), Seq::empty())),
    {
        let query = String::new();
        let indices = filtered_indices(query.as_str(), texts);
        let selected_index = choose_kept(previous_selected_index, &indices);
        assert(query@ =~= Seq::<char>::empty());
        ListSearch { target, query, selected_index, previous_selected_index }
    }

    /// The positions of the items that match the query.
    pub fn filtered_indices(&self, texts: &Vec<String>) -> (res: Vec<usize>)
        ensures
            res@ == matching(views(texts@), self.query@),
    {
        filtered_indices(self.query.as_str(), texts)
    }

    /// Keeps the selection when it still matches, else takes the first match.
    pub fn reconcile_selection(&mut self, texts: &Vec<String>)
        ensures
            final(self).selected_index == keep_or_first(old(self).selected_index, matching(views(texts@), old(self).query@)),
            final(self).query == old(self).query,
            final(self).target == old(self).target,
            final(self).previous_selected_index == old(self).previous_selected_index,
    {
        let indices = filtered_indices(self.query.as_str(), texts);
        self.selected_index = choose_kept(self.selected_index, &indices);
    }

    /// Moves the selection to the next or previous match, staying at the ends.
    pub fn move_selection(&mut self, next: bool, texts: &Vec<String>)
        ensures
            final(self).selected_index == moved(matching(views(texts@), old(self).query@), old(self).selected_index, next),
            final(self).query == old(self).query,
            final(self).target == old(self).target,
            final(self).previous_selected_index == old(self).previous_selected_index,
    {
        let indices = filtered_indices(self.query.as_str(), texts);
        let position = position_of(&indices, self.selected_index);
        if indices.len() == 0 {
            self.selected_index = None;
        } else if next {
            let p = if position + 1 < indices.len() {
                position + 1
            } else {
                indices.len() - 1
            };
            self.selected_index = Some(indices[p]);
        } else {
            let p = if position == 0 {
                0
            } else {
                position - 1
            };
            assert(p < indices.len()) by {
                if position > 0 {
                    let q = choose|q: int|
                        0 <= q < indices@.len() && indices@[q] == self.selected_index->Some_0 && forall|r: int|
                            0 <= r < q ==> indices@[r] != self.selected_index->Some_0;
                }
            }
            self.selected_index = Some(indices[p]);
        }
    }

    /// Where the selection of the searched list goes when the search ends:
    /// the chosen match when kept, the previous selection when cancelled.
    pub fn finish(self, commit: bool) -> (res: Option<usize>)
        ensures
            res == (if commit { self.selected_index } else { self.previous_selected_index }),
    {
        if commit {
            self.selected_index
        } else {
            self.previous_selected_index
        }
    }

    /// Applies a key while searching: Escape cancels and Enter keeps (the
    /// answer says which, `Some(commit)`); Backspace and characters edit the
    /// query; the arrows move among the matches.
    pub fn handle_key(&mut self, key: Key, texts: &Vec<String>) -> (finish: Option<bool>)
        ensures
            key == Key::Esc ==> finish == Some(false) && final(self).selected_index == old(self).selected_index,
            key == Key::Enter ==> finish == Some(true) && final(self).selected_index == old(self).selected_index,
            key == Key::Backspace ==> finish is None && final(self).query@ == (if old(self).query@.len() > 0 {
                old(self).query@.drop_last()
            } else {
                old(self).query@
            }) && final(self).selected_index == keep_or_first(old(self).selected_index, matching(views(texts@), final(self).query@)),
            key == Key::Up ==> finish is None && final(self).selected_index == moved(
                matching(views(texts@), old(self).query@),
                old(self).selected_index,
                false,
            ) && final(self).query == old(self).query,
            key == Key::Down ==> finish is None && final(self).selected_index == moved(
                matching(views(texts@), old(self).query@),
                old(self).selected_index,
                true,
            ) && final(self).query == old(self).query,
            key matches Key::Char(c) ==> finish is None && final(self).query@ == old(self).query@.push(c)
                && final(self).selected_index == keep_or_first(old(self).selected_index, matching(views(texts@), final(self).query@)),
            final(self).target == old(self).target,
            final(self).previous_selected_index == old(self).previous_selected_index,
    {
        match key {
            Key::Esc => Some(false),
            Key::Enter => Some(true),
            Key::Backspace => {
                pop_char(&mut self.query);
                self.reconcile_selection(texts);
                None
            },
            Key::Up => {
                self.move_selection(false, texts);
                None
            },
            Key::Down => {
                self.move_selection(true, texts);
                None
            },
            Key::Char(c) => {
                push_char(&mut self.query, c);
                self.reconcile_selection(texts);
                None
            },
            _ => None,
        }
    }

    /// The suffix shown in the list title while searching: ` · /query█`.
    pub fn title_suffix(&self) -> (res: String)
        ensures
            res@ == " · /"@ + self.query@ + "█"@,
    {
        let a = concat_str(" · /", self.query.as_str());
        concat_str(a.as_str(), "█")
    }

    /// Position of the selection among the matches.
    pub fn selected_position(&self, texts: &Vec<String>) -> (res: Option<usize>)
        ensures
            self.selected_index is None ==> res is None,
            self.selected_index matches Some(i) ==> (if matching(views(texts@), self.query@).contains(i) {
                res == Some(position_or_zero(matching(views(texts@), self.query@), self.selected_index) as usize)
            } else {
                res is None
            }),
    {
        match self.selected_index {
            Some(i) => {
                let indices = filtered_indices(self.query.as_str(), texts);
                if contains_index(&indices, i) {
                    Some(position_of(&indices, self.selected_index))
                } else {
                    None
                }
            },
            None => None,
        }
    }
}

/// The text a settings entry is searched by: its title and description.
pub fn settings_search_text(action: SettingsAction) -> (res: String)
    ensures
        res@ == settings_title(action) + " "@ + settings_description(action),
{
    let a = concat_str(action.title(), " ");
    concat_str(a.as_str(), action.description())
}

/// The selection always stays on a match: keeping or moving it yields a
/// match whenever there is one.
pub proof fn law_selection_is_a_match(indices: Seq<usize>, selected: Option<usize>, next: bool)
    ensures
        keep_or_first(selected, indices) matches Some(i) ==> indices.contains(i),
        indices.len() > 0 ==> keep_or_first(selected, indices) is Some,
        moved(indices, selected, next) matches Some(i) ==> indices.contains(i),
        indices.len() > 0 ==> moved(indices, selected, next) is Some,
{
    let p = position_or_zero(indices, selected);
    if indices.len() > 0 {
        if let Some(i) = selected {
            lemma_first_pos(indices, i);
        }
        let k = if next {
            if p + 1 < indices.len() { p + 1 as int } else { indices.len() - 1 as int }
        } else {
            if p == 0 { 0 } else { p - 1 as int }
        };
        assert(0 <= k < indices.len());
        assert(indices.contains(indices[k as int]));
    }
}

} // verus!
