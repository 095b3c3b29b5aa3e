//! From key presses to actions: key names, the leader key, and sequences
//! of keys such as `gt` that complete within a time limit.
use vstd::prelude::*;
use crate::action_map::strs;
use crate::key::Key;
use crate::keymap::{Config, applies, key_matches, ranks_before};
use crate::text::{
    byte_len, char_to_string, concat_str, contains_seq, copy_str, ends_with, starts_with, str_contains,
    str_ends_with, str_eq, str_starts_with, utf8_len,
};

verus! {

/// Milliseconds within which a key sequence must be completed.
pub const KEY_SEQUENCE_TIMEOUT_MS: u64 = 1000;

/// Whether keys are being collected into a sequence, and since when (in
/// milliseconds on the caller's clock).
#[derive(Debug, Clone, PartialEq, Eq)]
pub enum InputState {
    Normal,
    KeySequence(String, u64),
}

/// `r` is what `get_action_for_key` answers for `key` on `tab`.
pub open spec fn is_lookup(
    m: Map<Seq<char>, crate::action_map::ActionView>,
    key: Seq<char>,
    tab: Seq<char>,
    r: Option<Seq<char>>,
) -> bool {
    match r {
        None => forall|n: Seq<char>| !key_matches(m, n, key, tab),
        Some(r) => key_matches(m, r, key, tab) && forall|n: Seq<char>|
            key_matches(m, n, key, tab) && n != r ==> ranks_before(m, r, n),
    }
}

/// The view of an optional string.
pub open spec fn opt_view(o: Option<String>) -> Option<Seq<char>> {
    match o {
        Some(s) => Some(s@),
        None => None,
    }
}

/// A control character, as `char::is_ascii_control` has it.
pub open spec fn is_control(c: char) -> bool {
    c <= '\x1f' || c == '\x7f'
}

/// The name of a key in binding files: the character itself, `<Ctrl>x` for
/// control characters, or a name in angle brackets; `None` for keys that
/// have no name.
pub open spec fn key_label(key: Key, shift: bool) -> Option<Seq<char>> {
    match key {
        Key::Char(c) => if is_control(c) {
            Some("<Ctrl>"@.push(((c as u32) + 96) as char))
        } else {
            Some(seq![c])
        },
        Key::Up => Some("<Up>"@),
        Key::Down => Some("<Down>"@),
        Key::Left => Some("<Left>"@),
        Key::Right => Some("<Right>"@),
        Key::Enter => Some("<Enter>"@),
        Key::Esc => Some("<Esc>"@),
        Key::Backspace => Some("<Backspace>"@),
        Key::Tab => if shift {
            Some("<S-Tab>"@)
        } else {
            Some("<Tab>"@)
        },
        Key::BackTab => Some("<S-Tab>"@),
        Key::Other => None,
    }
}

/// Names a key press (see `key_label`).
pub fn key_name(key: Key, shift: bool) -> (res: Option<String>)
    ensures
        opt_view(res) == key_label(key, shift),
{
    match key {
        Key::Char(c) => {
            if c <= '\x1f' || c == '\x7f' {
                let code: u8 = (c as u8) + 96;
                let letter = code as char;
                let mut s = String::from_str("<Ctrl>");
                crate::text::push_char(&mut s, letter);
                Some(s)
            } else {
                Some(char_to_string(c))
            }
        },
        Key::Up => Some(String::from_str("<Up>")),
        Key::Down => Some(String::from_str("<Down>")),
        Key::Left => Some(String::from_str("<Left>")),
        Key::Right => Some(String::from_str("<Right>")),
        Key::Enter => Some(String::from_str("<Enter>")),
        Key::Esc => Some(String::from_str("<Esc>")),
        Key::Backspace => Some(String::from_str("<Backspace>")),
        Key::Tab => if shift {
            Some(String::from_str("<S-Tab>"))
        } else {
            Some(String::from_str("<Tab>"))
        },
        Key::BackTab => Some(String::from_str("<S-Tab>")),
        Key::Other => None,
    }
}

/// A key written as one special name such as `<Up>` or `<Enter>`.
pub open spec fn single_special(k: Seq<char>) -> bool {
    starts_with(k, "<"@) && ends_with(k, ">"@) && !contains_seq(k.subrange(1, k.len() - 1), "<"@)
}

/// Binding `k` is a longer sequence that begins with `key`.
pub open spec fn extends(k: Seq<char>, key: Seq<char>) -> bool {
    starts_with(k, key) && utf8_len(k) > 1 && !single_special(k)
}

/// Some action active on `tab` is bound to a longer sequence that begins
/// with `key`.
pub open spec fn could_start(
    m: Map<Seq<char>, crate::action_map::ActionView>,
    key: Seq<char>,
    tab: Seq<char>,
) -> bool {
    exists|n: Seq<char>, k: Seq<char>|
        m.dom().contains(n) && applies(m[n].tab, tab) && #[trigger] m[n].keys.contains(k) && extends(
            k,
            key,
        )
}

fn extends_key(k: &str, key: &str) -> (res: bool)
    ensures
        res == extends(k@, key@),
{
    proof {
        reveal_strlit("<");
        reveal_strlit(">");
    }
    if !str_starts_with(k, key) || byte_len(k) <= 1 {
        return false;
    }
    let n = k.unicode_len();
    if str_starts_with(k, "<") && str_ends_with(k, ">") {
        proof {
            assert("<"@.len() == 1 && "<"@[0] == '<');
            assert(">"@.len() == 1 && ">"@[0] == '>');
            assert(k@.subrange(0, 1)[0] == k@[0]);
            assert(k@.subrange(k@.len() - 1, k@.len() as int)[0] == k@[k@.len() - 1]);
        }
        let inner = k.substring_char(1, n - 1);
        let r = str_contains(inner, "<");
        assert(starts_with(k@, "<"@) && ends_with(k@, ">"@));
        assert(r == contains_seq(k@.subrange(1, k@.len() - 1), "<"@));
        assert(single_special(k@) == (starts_with(k@, "<"@) && ends_with(k@, ">"@) && !contains_seq(
            k@.subrange(1, k@.len() - 1),
            "<"@,
        )));
        assert(r == !single_special(k@));
        r
    } else {
        true
    }
}

/// Whether a key could begin a sequence bound on `tab`.
pub fn starts_sequence(config: &Config, key: &str, tab: &str) -> (res: bool)
    ensures
        res == could_start(config.actions@, key@, tab@),
{
    let m = &config.actions;
    let entries = m.entries();
    let ghost names = m.names();
    let mut i: usize = 0;
    assert forall|j: int| 0 <= j < entries.len() implies #[trigger] m@.dom().contains(names[j]) by {
        assert(m@.dom().contains(m.names()[j]));
    }
    assert forall|j: int| 0 <= j < entries.len() implies #[trigger] m@[names[j]] == entries@[j].1@ by {
        assert(entries@[j].0@ == names[j]);
        assert(entries@[j].1@ == m.action_at(j));
        assert(m@.dom().contains(m.names()[j]));
    }
    while i < entries.len()
        invariant
            names == m.names(),
            names.len() == entries.len(),
            *m == config.actions,
            forall|j: int| 0 <= j < entries.len() ==> #[trigger] entries@[j].0@ == names[j],
            forall|j: int| 0 <= j < entries.len() ==> #[trigger] m@.dom().contains(names[j]),
            forall|j: int| 0 <= j < entries.len() ==> #[trigger] m@[names[j]] == entries@[j].1@,
            forall|q: Seq<char>| #[trigger]
                m@.dom().contains(q) ==> exists|j: int| 0 <= j < names.len() && names[j] == q,
            i <= entries.len(),
            forall|j: int, k: Seq<char>|
                0 <= j < i && applies(m@[names[j]].tab, tab@) && #[trigger] m@[names[j]].keys.contains(k)
                    ==> !extends(k, key@),
        decreases entries.len() - i,
    {
        let action = &entries[i].1;
        assert(m@.dom().contains(names[i as int]));
        assert(m@[names[i as int]] == action@);
        if action.applies_to(tab) {
            let keys = &action.keys;
            let mut j: usize = 0;
            while j < keys.len()
                invariant
                    j <= keys.len(),
                    keys@ == action.keys@,
                    names == m.names(),
                    *m == config.actions,
                    i < names.len(),
                    m@.dom().contains(names[i as int]),
                    m@[names[i as int]] == action@,
                    applies(action@.tab, tab@),
                    forall|t: int| 0 <= t < j ==> !extends(#[trigger] keys@[t]@, key@),
                decreases keys.len() - j,
            {
                if extends_key(keys[j].as_str(), key) {
                    proof {
                        assert(strs(action.keys@)[j as int] == keys@[j as int]@);
                        assert(m@[names[i as int]].keys[j as int] == keys@[j as int]@);
                        assert(m@[names[i as int]].keys.contains(keys@[j as int]@));
                        assert(applies(m@[names[i as int]].tab, tab@));
                    }
                    return true;
                }
                j = j + 1;
            }
            proof {
                assert forall|k: Seq<char>| action@.keys.contains(k) implies !extends(k, key@) by {
                    let t = choose|t: int| 0 <= t < action@.keys.len() && action@.keys[t] == k;
                    assert(strs(action.keys@)[t] == keys@[t]@);
                }
            }
        }
        i = i + 1;
    }
    proof {
        assert forall|n: Seq<char>, k: Seq<char>|
            m@.dom().contains(n) && applies(m@[n].tab, tab@) && #[trigger] m@[n].keys.contains(k)
                implies !extends(k, key@) by {
            let j = choose|j: int| 0 <= j < names.len() && names[j] == n;
            assert(m@.dom().contains(names[j]));
        }
    }
    false
}

/// What one named key press does: the next input state and the action to
/// run, if any. The leader key opens a sequence; within a sequence the key
/// completes it (`<leader>` followed by the key, or the keys joined), and
/// an expired sequence runs its own binding and drops the key; a key that
/// begins a longer binding opens a sequence; any other key runs its binding.
pub open spec fn dispatch(
    m: Map<Seq<char>, crate::action_map::ActionView>,
    leader: Seq<char>,
    state: InputState,
    key: Seq<char>,
    tab: Seq<char>,
    now_ms: u64,
    next: InputState,
    action: Option<Seq<char>>,
) -> bool {
    if key == leader {
        next matches InputState::KeySequence(s, t) && s@ == "<leader>"@ && t == now_ms && action is None
    } else if let InputState::KeySequence(seq, start) = state {
        &&& next == InputState::Normal
        &&& if now_ms > start && now_ms - start > KEY_SEQUENCE_TIMEOUT_MS {
            is_lookup(m, seq@, tab, action)
        } else if seq@ == "<leader>"@ {
            is_lookup(m, "<leader>"@ + key, tab, action)
        } else {
            is_lookup(m, seq@ + key, tab, action)
        }
    } else if could_start(m, key, tab) {
        next matches InputState::KeySequence(s, t) && s@ == key && t == now_ms && action is None
    } else {
        next == state && is_lookup(m, key, tab, action)
    }
}

fn lookup(config: &Config, key: &str, tab: &str) -> (res: Option<String>)
    ensures
        is_lookup(config.actions@, key@, tab@, opt_view(res)),
{
    config.get_action_for_key(key, tab)
}

/// Applies one named key press to the input state; returns the next state
/// and the action to run (see `dispatch`).
pub fn dispatch_key(config: &Config, state: &InputState, key: &str, current_tab: &str, now_ms: u64) -> (res: (
    InputState,
    Option<String>,
))
    ensures
        dispatch(config.actions@, config.leader@, *state, key@, current_tab@, now_ms, res.0, opt_view(res.1)),
{
    if str_eq(key, config.leader.as_str()) {
        return (InputState::KeySequence(String::from_str("<leader>"), now_ms), None);
    }
    match state {
        InputState::KeySequence(seq, start) => {
            if now_ms > *start && now_ms - *start > KEY_SEQUENCE_TIMEOUT_MS {
                return (InputState::Normal, lookup(config, seq.as_str(), current_tab));
            }
            if str_eq(seq.as_str(), "<leader>") {
                let k = concat_str("<leader>", key);
                return (InputState::Normal, lookup(config, k.as_str(), current_tab));
            }
            let k = concat_str(seq.as_str(), key);
            (InputState::Normal, lookup(config, k.as_str(), current_tab))
        },
        InputState::Normal => {
            if starts_sequence(config, key, current_tab) {
                return (InputState::KeySequence(copy_str(key), now_ms), None);
            }
            (InputState::Normal, lookup(config, key, current_tab))
        },
    }
}

} // verus!
