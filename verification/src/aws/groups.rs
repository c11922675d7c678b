//! Thing groups.

use vstd::prelude::*;
use vstd::std_specs::convert::FromSpecImpl;
use crate::aws::{of_key, sort_by_name, sorted_by_name, Named, Property};

verus! {

/// Representation of a thing group: its name and its resource name.
#[derive(Clone, Debug, Default)]
pub struct GroupNameAndArn {
    /// Name of the group.
    pub group_name: String,
    /// Resource name of the group.
    pub group_arn: String,
}

impl GroupNameAndArn {
    /// The row that shows the group: name, resource name.
    pub open spec fn row(self) -> Seq<Seq<char>> {
        seq![self.group_name@, self.group_arn@]
    }
}

impl Named for GroupNameAndArn {
    open spec fn spec_name(&self) -> Seq<char> {
        self.group_name@
    }

    fn name(&self) -> (name: &str) {
        self.group_name.as_str()
    }
}

/// Thing groups.
#[derive(Clone, Debug)]
pub struct ThingGroups {
    inner: Vec<GroupNameAndArn>,
}

impl View for ThingGroups {
    type V = Seq<GroupNameAndArn>;

    closed spec fn view(&self) -> Seq<GroupNameAndArn> {
        self.inner@
    }
}

impl ThingGroups {
    /// The collection that holds `inner`.
    pub closed spec fn of(inner: Vec<GroupNameAndArn>) -> ThingGroups {
        ThingGroups { inner }
    }

    /// The groups in ascending order of their names, compared without regard
    /// to case; those whose names differ in case alone keep their order.
    pub fn sorted(items: Vec<GroupNameAndArn>) -> (groups: ThingGroups)
        ensures
            sorted_by_name(groups@),
            groups@.to_multiset() == items@.to_multiset(),
            forall|key: Seq<char>| #[trigger] of_key(groups@, key, true) == of_key(items@, key, true),
    {
        ThingGroups { inner: sort_by_name(items) }
    }
}

impl From<Vec<GroupNameAndArn>> for ThingGroups {
    fn from(inner: Vec<GroupNameAndArn>) -> (groups: ThingGroups)
        ensures
            groups@ == inner@,
    {
        ThingGroups { inner }
    }
}

impl FromSpecImpl<Vec<GroupNameAndArn>> for ThingGroups {
    open spec fn obeys_from_spec() -> bool {
        true
    }

    open spec fn from_spec(inner: Vec<GroupNameAndArn>) -> ThingGroups {
        ThingGroups::of(inner)
    }
}

impl<'a> Property<'a> for ThingGroups {
    open spec fn rows(&self) -> Seq<Seq<Seq<char>>> {
        self@.map_values(|group: GroupNameAndArn| group.row())
    }

    fn items(&self) -> (rows: Vec<Vec<String>>) {
        let mut rows: Vec<Vec<String>> = Vec::new();
        let mut i: usize = 0;
        while i < self.inner.len()
            invariant
                i <= self.inner.len(),
                rows@.len() == i,
                forall|k: int| 0 <= k < i ==> (#[trigger] rows@[k]).deep_view() == self.inner@[k].row(),
            decreases self.inner.len() - i,
        {
            let item = &self.inner[i];
            let mut row: Vec<String> = Vec::new();
            row.push(item.group_name.clone());
            row.push(item.group_arn.clone());
            assert(row.deep_view() =~= item.row());
            rows.push(row);
            i += 1;
        }
        assert(rows.deep_view() =~= self.rows());
        rows
    }
}

} // verus!
