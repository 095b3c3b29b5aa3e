//! The tabs of the terminal front end and how to move between them.
use vstd::prelude::*;

verus! {

/// The tabs, in display order.
#[derive(Debug, Clone, Copy, PartialEq, Eq, Structural)]
pub enum SelectedTab {
    Server,
    Client,
    Settings,
}

/// Number of tabs.
pub const TAB_COUNT: usize = 3;

/// Position of a tab in display order.
pub open spec fn tab_index(t: SelectedTab) -> nat {
    match t {
        SelectedTab::Server => 0,
        SelectedTab::Client => 1,
        SelectedTab::Settings => 2,
    }
}

/// The tab at a position.
pub open spec fn tab_at(i: nat) -> SelectedTab {
    if i == 0 {
        SelectedTab::Server
    } else if i == 1 {
        SelectedTab::Client
    } else {
        SelectedTab::Settings
    }
}

impl Default for SelectedTab {
    fn default() -> (res: SelectedTab)
        ensures
            res == SelectedTab::Server,
    {
        SelectedTab::Server
    }
}

impl SelectedTab {
    /// Position in display order.
    pub fn index(self) -> (res: usize)
        ensures
            res == tab_index(self),
    {
        match self {
            SelectedTab::Server => 0,
            SelectedTab::Client => 1,
            SelectedTab::Settings => 2,
        }
    }

    /// The tab at position `i`, if there is one.
    pub fn from_index(i: usize) -> (res: Option<SelectedTab>)
        ensures
            i < TAB_COUNT ==> res == Some(tab_at(i as nat)),
            i >= TAB_COUNT ==> res is None,
    {
        if i == 0 {
            Some(SelectedTab::Server)
        } else if i == 1 {
            Some(SelectedTab::Client)
        } else if i == 2 {
            Some(SelectedTab::Settings)
        } else {
            None
        }
    }

    /// The tab before this one; the first wraps to the last.
    pub fn previous(self) -> (res: SelectedTab)
        ensures
            res == tab_before(self),
    {
        let i = self.index();
        let p = if i == 0 {
            TAB_COUNT - 1
        } else {
            i - 1
        };
        match SelectedTab::from_index(p) {
            Some(t) => t,
            None => self,
        }
    }

    /// The tab after this one; the last wraps to the first.
    pub fn next(self) -> (res: SelectedTab)
        ensures
            res == tab_after(self),
    {
        let n = (self.index() + 1) % TAB_COUNT;
        match SelectedTab::from_index(n) {
            Some(t) => t,
            None => self,
        }
    }

    /// The tab at position `index`, counting round the tabs.
    pub fn wrapped(index: usize) -> (res: SelectedTab)
        ensures
            res == tab_at((index % TAB_COUNT) as nat),
    {
        match SelectedTab::from_index(index % TAB_COUNT) {
            Some(t) => t,
            None => SelectedTab::Server,
        }
    }

    /// The tab's label.
    pub fn label(self) -> (res: &'static str)
        ensures
            res@ == tab_label(self),
    {
        match self {
            SelectedTab::Server => "Server",
            SelectedTab::Client => "Client",
            SelectedTab::Settings => "Settings",
        }
    }
}

/// The label shown for a tab.
pub open spec fn tab_label(t: SelectedTab) -> Seq<char> {
    match t {
        SelectedTab::Server => "Server"@,
        SelectedTab::Client => "Client"@,
        SelectedTab::Settings => "Settings"@,
    }
}

/// The tab after `t`, wrapping from the last to the first.
pub open spec fn tab_after(t: SelectedTab) -> SelectedTab {
    tab_at((tab_index(t) + 1) % (TAB_COUNT as nat))
}

/// The tab before `t`, wrapping from the first to the last.
pub open spec fn tab_before(t: SelectedTab) -> SelectedTab {
    tab_at(((tab_index(t) + TAB_COUNT - 1) % (TAB_COUNT as int)) as nat)
}

/// Moving forward and then back returns to the same tab, and the other way
/// round.
pub proof fn law_next_previous_inverse(t: SelectedTab)
    ensures
        tab_before(tab_after(t)) == t,
        tab_after(tab_before(t)) == t,
{
}

/// Moving forward once per tab comes back to the start.
pub proof fn law_next_cycles(t: SelectedTab)
    ensures
        tab_after(tab_after(tab_after(t))) == t,
        tab_before(tab_before(tab_before(t))) == t,
{
}

} // verus!
