//! The tabs of the screen and the order in which they are walked.

use vstd::prelude::*;
use vstd::string::StringExecFns;

verus! {

/// One of the tabs.
#[derive(Clone, Copy, Debug, PartialEq, Eq, Structural)]
pub enum SelectedTab {
    RequestReply,
    LoadTest,
}

impl Default for SelectedTab {
    fn default() -> (tab: SelectedTab)
        ensures
            tab == SelectedTab::RequestReply,
    {
        SelectedTab::RequestReply
    }
}

/// The tab at position `index`, counted from the left.
pub open spec fn tab_at(index: nat) -> Option<SelectedTab> {
    if index == 0 {
        Some(SelectedTab::RequestReply)
    } else if index == 1 {
        Some(SelectedTab::LoadTest)
    } else {
        None
    }
}

impl SelectedTab {
    /// The position of the tab, counted from the left.
    pub open spec fn position(self) -> nat {
        match self {
            SelectedTab::RequestReply => 0,
            SelectedTab::LoadTest => 1,
        }
    }

    /// The tab to the left; the leftmost tab stays.
    pub open spec fn left(self) -> SelectedTab {
        SelectedTab::RequestReply
    }

    /// The tab to the right; the rightmost tab stays.
    pub open spec fn right(self) -> SelectedTab {
        SelectedTab::LoadTest
    }

    /// All tabs, from left to right.
    pub fn all() -> (tabs: [SelectedTab; 2])
        ensures
            forall|i: int| 0 <= i < 2 ==> tab_at(i as nat) == Some(#[trigger] tabs[i]),
    {
        [SelectedTab::RequestReply, SelectedTab::LoadTest]
    }

    /// The position of the tab, counted from the left.
    pub fn index(self) -> (index: usize)
        ensures
            index == self.position(),
    {
        match self {
            SelectedTab::RequestReply => 0,
            SelectedTab::LoadTest => 1,
        }
    }

    /// The tab at a position, if there is one.
    pub fn from_repr(index: usize) -> (tab: Option<SelectedTab>)
        ensures
            tab == tab_at(index as nat),
    {
        if index == 0 {
            Some(SelectedTab::RequestReply)
        } else if index == 1 {
            Some(SelectedTab::LoadTest)
        } else {
            None
        }
    }

    /// The tab one position to the left, or this tab where there is none.
    pub fn previous(self) -> (tab: SelectedTab)
        ensures
            tab == self.left(),
            tab.position() == if self.position() == 0 {
                0
            } else {
                self.position() - 1
            },
    {
        let previous_index: usize = self.index().saturating_sub(1);
        match SelectedTab::from_repr(previous_index) {
            Some(tab) => tab,
            None => self,
        }
    }

    /// The tab one position to the right, or this tab where there is none.
    pub fn next(self) -> (tab: SelectedTab)
        ensures
            tab == self.right(),
            tab.position() == if tab_at(self.position() + 1) is Some {
                self.position() + 1
            } else {
                self.position()
            },
    {
        let next_index: usize = self.index().saturating_add(1);
        match SelectedTab::from_repr(next_index) {
            Some(tab) => tab,
            None => self,
        }
    }

    /// What the tab is for.
    pub fn description(self) -> (text: String)
        ensures
            text@ == match self {
                SelectedTab::RequestReply => "Send individual requests to your endpoint"@,
                SelectedTab::LoadTest => "Load test your API"@,
            },
    {
        match self {
            SelectedTab::RequestReply => String::from_str(
                "Send individual requests to your endpoint",
            ),
            SelectedTab::LoadTest => String::from_str("Load test your API"),
        }
    }

    /// The name of the tab as shown in the tab bar.
    pub fn title(self) -> (text: String)
        ensures
            text@ == match self {
                SelectedTab::RequestReply => "Request/Reply"@,
                SelectedTab::LoadTest => "Load Test"@,
            },
    {
        match self {
            SelectedTab::RequestReply => String::from_str("Request/Reply"),
            SelectedTab::LoadTest => String::from_str("Load Test"),
        }
    }
}

} // verus!
