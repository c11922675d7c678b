//! The tabs of the dashboard.

use vstd::prelude::*;

verus! {

/// A category of resources that the dashboard can show.
#[derive(Clone, Copy, Debug, PartialEq, Eq, Structural)]
pub enum TabsEnum {
    Devices,
    Deployments,
}

impl Default for TabsEnum {
    fn default() -> (tab: TabsEnum)
        ensures
            tab == TabsEnum::Devices,
    {
        TabsEnum::Devices
    }
}

impl TabsEnum {
    /// Number of tabs.
    pub open spec fn spec_count() -> nat {
        2
    }

    /// Position of the tab in the tab bar.
    pub open spec fn spec_index(self) -> nat {
        match self {
            TabsEnum::Devices => 0,
            TabsEnum::Deployments => 1,
        }
    }

    /// The tab at a position of the tab bar.
    pub open spec fn spec_from_index(index: nat) -> Option<TabsEnum> {
        if index == 0 {
            Some(TabsEnum::Devices)
        } else if index == 1 {
            Some(TabsEnum::Deployments)
        } else {
            None
        }
    }

    /// Title of the tab.
    pub open spec fn spec_title(self) -> Seq<char> {
        match self {
            TabsEnum::Devices => "Core Devices"@,
            TabsEnum::Deployments => "Deployments"@,
        }
    }

    /// Number of tabs.
    pub fn count() -> (n: usize)
        ensures
            n == TabsEnum::spec_count(),
    {
        2
    }

    /// Position of the tab in the tab bar.
    pub fn index(&self) -> (index: usize)
        ensures
            index == self.spec_index(),
            index < TabsEnum::spec_count(),
    {
        match self {
            TabsEnum::Devices => 0,
            TabsEnum::Deployments => 1,
        }
    }

    /// The tab at a position of the tab bar, if there is one.
    pub fn from_index(index: usize) -> (tab: Option<TabsEnum>)
        ensures
            tab == TabsEnum::spec_from_index(index as nat),
            tab is Some == (index < TabsEnum::spec_count()),
            tab matches Some(t) ==> t.spec_index() == index,
    {
        if index == 0 {
            Some(TabsEnum::Devices)
        } else if index == 1 {
            Some(TabsEnum::Deployments)
        } else {
            None
        }
    }

    /// Title of the tab.
    pub fn title(&self) -> (title: &'static str)
        ensures
            title@ == self.spec_title(),
    {
        match self {
            TabsEnum::Devices => "Core Devices",
            TabsEnum::Deployments => "Deployments",
        }
    }

    /// Column titles of the tab's table.
    pub open spec fn spec_headers(self) -> Seq<Seq<char>> {
        match self {
            TabsEnum::Devices => seq!["Name"@, "Status"@, "Last Status Update"@],
            TabsEnum::Deployments => seq!["Name"@, "Status"@, "Created"@],
        }
    }

    /// Column titles of the tab's table.
    pub fn headers(&self) -> (titles: &'static [&'static str])
        ensures
            titles@.len() == 3,
            forall|i: int| 0 <= i < 3 ==> (#[trigger] titles@[i])@ == self.spec_headers()[i],
    {
        match self {
            TabsEnum::Devices => &["Name", "Status", "Last Status Update"],
            TabsEnum::Deployments => &["Name", "Status", "Created"],
        }
    }
}

} // verus!
