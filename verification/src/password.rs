//! Password entry: typing a password, confirming it, and the checks between.
use vstd::prelude::*;
use crate::text::{byte_len, pop_char, push_char, utf8_len};

verus! {

/// Shortest password accepted, in bytes.
pub const MIN_PASSWORD_LEN: usize = 8;

/// Longest input kept while typing, in bytes.
pub const MAX_PASSWORD_LEN: usize = 50;

/// Which of the two fields the user is typing into.
#[derive(Debug, Clone, Copy, PartialEq, Eq, Structural)]
pub enum PasswordMode {
    Creating,
    Confirming,
}

impl Default for PasswordMode {
    fn default() -> (res: PasswordMode)
        ensures
            res == PasswordMode::Creating,
    {
        PasswordMode::Creating
    }
}

/// State of a password being entered twice.
pub struct PasswordCreationState {
    pub creating_password: bool,
    pub password_input: String,
    pub password_confirm: String,
    pub password_mode: PasswordMode,
    pub password_error: Option<String>,
    pub password_success: bool,
}

/// The abstract value of a `PasswordCreationState`.
pub struct PasswordView {
    pub creating: bool,
    pub input: Seq<char>,
    pub confirm: Seq<char>,
    pub mode: PasswordMode,
    pub error: Option<Seq<char>>,
    pub success: bool,
}

impl View for PasswordCreationState {
    type V = PasswordView;

    open spec fn view(&self) -> PasswordView {
        PasswordView {
            creating: self.creating_password,
            input: self.password_input@,
            confirm: self.password_confirm@,
            mode: self.password_mode,
            error: match self.password_error {
                Some(e) => Some(e@),
                None => None,
            },
            success: self.password_success,
        }
    }
}

/// The state before any password is entered; `creating` says whether entry is open.
pub open spec fn fresh_password(creating: bool) -> PasswordView {
    PasswordView {
        creating,
        input: Seq::empty(),
        confirm: Seq::empty(),
        mode: PasswordMode::Creating,
        error: None,
        success: false,
    }
}

/// The message shown for a password that is too short.
pub open spec fn too_short_message() -> Seq<char> {
    "Password must be at least 8 characters"@
}

/// The message shown when the two entries differ.
pub open spec fn mismatch_message() -> Seq<char> {
    "Passwords do not match"@
}

/// Keys that submit the current field.
pub open spec fn is_submit_key(c: char) -> bool {
    c == '\n' || c == '\r'
}

/// Keys that delete the last character.
pub open spec fn is_backspace_key(c: char) -> bool {
    c == '\x08' || c == '\x7f'
}

/// Characters that can be part of a password: printable ASCII and space.
pub open spec fn is_password_char(c: char) -> bool {
    ('!' <= c && c <= '~') || c == ' '
}

/// What one key does to the password state.
pub open spec fn password_step(s: PasswordView, key: char) -> PasswordView {
    if is_submit_key(key) {
        match s.mode {
            PasswordMode::Creating => if utf8_len(s.input) < MIN_PASSWORD_LEN {
                PasswordView { error: Some(too_short_message()), ..s }
            } else {
                PasswordView { mode: PasswordMode::Confirming, confirm: Seq::empty(), ..s }
            },
            PasswordMode::Confirming => if s.input == s.confirm {
                s
            } else {
                PasswordView { error: Some(mismatch_message()), confirm: Seq::empty(), ..s }
            },
        }
    } else if is_backspace_key(key) {
        match s.mode {
            PasswordMode::Creating => PasswordView {
                input: if s.input.len() > 0 { s.input.drop_last() } else { s.input },
                error: None,
                ..s
            },
            PasswordMode::Confirming => PasswordView {
                confirm: if s.confirm.len() > 0 { s.confirm.drop_last() } else { s.confirm },
                error: None,
                ..s
            },
        }
    } else if key == '\x1b' {
        fresh_password(false)
    } else if is_password_char(key) {
        match s.mode {
            PasswordMode::Creating => PasswordView {
                input: if utf8_len(s.input) < MAX_PASSWORD_LEN { s.input.push(key) } else { s.input },
                error: None,
                ..s
            },
            PasswordMode::Confirming => PasswordView {
                confirm: if utf8_len(s.confirm) < MAX_PASSWORD_LEN {
                    s.confirm.push(key)
                } else {
                    s.confirm
                },
                error: None,
                ..s
            },
        }
    } else {
        s
    }
}

/// Both entries agree and the password is long enough.
pub open spec fn password_complete(s: PasswordView) -> bool {
    s.mode == PasswordMode::Confirming && s.input == s.confirm && utf8_len(s.input)
        >= MIN_PASSWORD_LEN
}

/// A string of `n` stars.
pub open spec fn stars(n: nat) -> Seq<char> {
    Seq::new(n, |i: int| '*')
}

/// Typing a printable character and then deleting it gives back the fields
/// as they were, with no error shown.
pub proof fn law_type_then_delete(s: PasswordView, c: char)
    requires
        is_password_char(c),
        s.mode == PasswordMode::Creating ==> utf8_len(s.input) < MAX_PASSWORD_LEN,
        s.mode == PasswordMode::Confirming ==> utf8_len(s.confirm) < MAX_PASSWORD_LEN,
    ensures
        password_step(password_step(s, c), '\x7f') == (PasswordView { error: None, ..s }),
{
    assert(s.input.push(c).drop_last() =~= s.input);
    assert(s.confirm.push(c).drop_last() =~= s.confirm);
}

/// Every printable ASCII character, from `!` to `~`, and the space are typed
/// into the field being entered: below the length limit they are appended to
/// it, and the other field, the mode and the entry state are kept.
pub proof fn law_printable_is_typed(s: PasswordView, c: char)
    requires
        ' ' <= c <= '~',
    ensures
        s.mode == PasswordMode::Creating && utf8_len(s.input) < MAX_PASSWORD_LEN ==> password_step(s, c)
            == (PasswordView { input: s.input.push(c), error: None, ..s }),
        s.mode == PasswordMode::Confirming && utf8_len(s.confirm) < MAX_PASSWORD_LEN ==> password_step(s, c)
            == (PasswordView { confirm: s.confirm.push(c), error: None, ..s }),
{
}

/// Neither field grows past the typing limit: from fields within it, every
/// key leaves them within it.
pub proof fn law_fields_stay_bounded(s: PasswordView, key: char)
    requires
        utf8_len(s.input) <= MAX_PASSWORD_LEN,
        utf8_len(s.confirm) <= MAX_PASSWORD_LEN,
    ensures
        utf8_len(password_step(s, key).input) <= MAX_PASSWORD_LEN,
        utf8_len(password_step(s, key).confirm) <= MAX_PASSWORD_LEN,
{
    assert(s.input.push(key).drop_last() =~= s.input);
    assert(s.confirm.push(key).drop_last() =~= s.confirm);
    assert(utf8_len(Seq::<char>::empty()) == 0);
}

/// Escape always closes entry and forgets both fields.
pub proof fn law_escape_resets(s: PasswordView)
    ensures
        password_step(s, '\x1b') == fresh_password(false),
{
}

/// Submitting a completed entry changes nothing, and a completed entry is at
/// least the minimum length.
pub proof fn law_complete_is_stable(s: PasswordView)
    requires
        password_complete(s),
    ensures
        password_step(s, '\n') == s,
        password_step(s, '\r') == s,
        utf8_len(s.input) >= MIN_PASSWORD_LEN,
{
}

/// Submitting a long enough password moves to confirmation; typing the same
/// characters again and submitting completes the entry.
pub proof fn law_confirm_after_submit(s: PasswordView)
    requires
        s.mode == PasswordMode::Creating,
        utf8_len(s.input) >= MIN_PASSWORD_LEN,
    ensures
        password_step(s, '\n').mode == PasswordMode::Confirming,
        password_step(s, '\n').input == s.input,
        password_complete((PasswordView { confirm: s.input, ..password_step(s, '\n') })),
{
}

fn stars_of_len(n: usize) -> (res: String)
    ensures
        res@ == stars(n as nat),
{
    let mut s = String::new();
    let mut i: usize = 0;
    while i < n
        invariant
            i <= n,
            s@ == stars(i as nat),
        decreases n - i,
    {
        push_char(&mut s, '*');
        i = i + 1;
        assert(s@ =~= stars(i as nat));
    }
    s
}

fn message(text: &str) -> (res: Option<String>)
    ensures
        res matches Some(m) && m@ == text@,
{
    Some(String::from_str(text))
}

impl Default for PasswordCreationState {
    fn default() -> (res: PasswordCreationState)
        ensures
            res@ == fresh_password(false),
    {
        PasswordCreationState::new()
    }
}

impl PasswordCreationState {
    /// A state with no entry in progress.
    pub fn new() -> (res: PasswordCreationState)
        ensures
            res@ == fresh_password(false),
    {
        PasswordCreationState {
            creating_password: false,
            password_input: String::new(),
            password_confirm: String::new(),
            password_mode: PasswordMode::Creating,
            password_error: None,
            password_success: false,
        }
    }

    /// Opens password entry with both fields empty.
    pub fn start_creating_password(&mut self)
        ensures
            final(self)@ == fresh_password(true),
    {
        self.creating_password = true;
        self.password_input = String::new();
        self.password_confirm = String::new();
        self.password_mode = PasswordMode::Creating;
        self.password_error = None;
        self.password_success = false;
    }

    /// Closes password entry and forgets what was typed.
    pub fn clear_password_creation(&mut self)
        ensures
            final(self)@ == fresh_password(false),
    {
        self.creating_password = false;
        self.password_input = String::new();
        self.password_confirm = String::new();
        self.password_mode = PasswordMode::Creating;
        self.password_error = None;
        self.password_success = false;
    }

    /// Applies one key: Enter submits the current field, Backspace deletes,
    /// Escape cancels, and a printable character is typed.
    pub fn handle_password_input(&mut self, key: char)
        ensures
            final(self)@ == password_step(old(self)@, key),
    {
        if key == '\n' || key == '\r' {
            match self.password_mode {
                PasswordMode::Creating => {
                    if byte_len(self.password_input.as_str()) < MIN_PASSWORD_LEN {
                        self.password_error = message("Password must be at least 8 characters");
                        return ;
                    }
                    self.password_mode = PasswordMode::Confirming;
                    self.password_confirm = String::new();
                },
                PasswordMode::Confirming => {
                    if self.password_input == self.password_confirm {
                    } else {
                        self.password_error = message("Passwords do not match");
                        self.password_confirm = String::new();
                    }
                },
            }
        } else if key == '\x08' || key == '\x7f' {
            match self.password_mode {
                PasswordMode::Creating => {
                    pop_char(&mut self.password_input);
                },
                PasswordMode::Confirming => {
                    pop_char(&mut self.password_confirm);
                },
            }
            self.password_error = None;
        } else if key == '\x1b' {
            self.clear_password_creation();
        } else if ('!' <= key && key <= '~') || key == ' ' {
            match self.password_mode {
                PasswordMode::Creating => {
                    if byte_len(self.password_input.as_str()) < MAX_PASSWORD_LEN {
                        push_char(&mut self.password_input, key);
                    }
                },
                PasswordMode::Confirming => {
                    if byte_len(self.password_confirm.as_str()) < MAX_PASSWORD_LEN {
                        push_char(&mut self.password_confirm, key);
                    }
                },
            }
            self.password_error = None;
        }
    }

    /// Whether both entries agree and are long enough.
    pub fn is_password_creation_complete(&self) -> (res: bool)
        ensures
            res == password_complete(self@),
    {
        self.password_mode == PasswordMode::Confirming && self.password_input
            == self.password_confirm && byte_len(self.password_input.as_str()) >= MIN_PASSWORD_LEN
    }

    /// The password typed so far.
    pub fn get_password(&self) -> (res: &str)
        ensures
            res@ == self@.input,
    {
        self.password_input.as_str()
    }

    /// Whether password entry is open.
    pub fn is_creating_password(&self) -> (res: bool)
        ensures
            res == self@.creating,
    {
        self.creating_password
    }

    /// The field being typed into.
    pub fn get_password_mode(&self) -> (res: &PasswordMode)
        ensures
            *res == self@.mode,
    {
        &self.password_mode
    }

    /// The message of the last failed check, if any.
    pub fn get_error(&self) -> (res: Option<&String>)
        ensures
            res.is_some() == self@.error.is_some(),
            res.is_some() ==> res.unwrap()@ == self@.error.unwrap(),
    {
        self.password_error.as_ref()
    }

    /// One star per byte of the password.
    pub fn get_masked_password(&self) -> (res: String)
        ensures
            res@ == stars(utf8_len(self@.input)),
    {
        stars_of_len(byte_len(self.password_input.as_str()))
    }

    /// One star per byte of the confirmation.
    pub fn get_masked_confirm(&self) -> (res: String)
        ensures
            res@ == stars(utf8_len(self@.confirm)),
    {
        stars_of_len(byte_len(self.password_confirm.as_str()))
    }
}

} // verus!
