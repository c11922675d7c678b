//! Greengrass deployments.

use vstd::prelude::*;
use vstd::std_specs::convert::FromSpecImpl;
use crate::aws::{of_key, sort_by_name, sorted_by_name, Named, Property};

verus! {

/// Representation of a deployment.
#[derive(Clone, Debug, Default)]
pub struct Deployment {
    /// Name of the deployment.
    pub deployment_name: String,
    /// Status of the deployment.
    pub deployment_status: String,
    /// The time at which the deployment was created.
    pub creation_timestamp: String,
}

impl Deployment {
    /// The row that shows the deployment: name, status, time of creation.
    pub open spec fn row(self) -> Seq<Seq<char>> {
        seq![self.deployment_name@, self.deployment_status@, self.creation_timestamp@]
    }
}

impl Named for Deployment {
    open spec fn spec_name(&self) -> Seq<char> {
        self.deployment_name@
    }

    fn name(&self) -> (name: &str) {
        self.deployment_name.as_str()
    }
}

/// Greengrass deployments.
#[derive(Clone, Debug)]
pub struct Deployments {
    inner: Vec<Deployment>,
}

impl View for Deployments {
    type V = Seq<Deployment>;

    closed spec fn view(&self) -> Seq<Deployment> {
        self.inner@
    }
}

impl Deployments {
    /// The collection that holds `inner`.
    pub closed spec fn of(inner: Vec<Deployment>) -> Deployments {
        Deployments { inner }
    }

    /// The deployments in ascending order of their names, compared without
    /// regard to case; those whose names differ in case alone keep their order.
    pub fn sorted(items: Vec<Deployment>) -> (deployments: Deployments)
        ensures
            sorted_by_name(deployments@),
            deployments@.to_multiset() == items@.to_multiset(),
            forall|key: Seq<char>| #[trigger] of_key(deployments@, key, true) == of_key(items@, key, true),
    {
        Deployments { inner: sort_by_name(items) }
    }
}

impl From<Vec<Deployment>> for Deployments {
    fn from(inner: Vec<Deployment>) -> (deployments: Deployments)
        ensures
            deployments@ == inner@,
    {
        Deployments { inner }
    }
}

impl FromSpecImpl<Vec<Deployment>> for Deployments {
    open spec fn obeys_from_spec() -> bool {
        true
    }

    open spec fn from_spec(inner: Vec<Deployment>) -> Deployments {
        Deployments::of(inner)
    }
}

impl<'a> Property<'a> for Deployments {
    open spec fn rows(&self) -> Seq<Seq<Seq<char>>> {
        self@.map_values(|deployment: Deployment| deployment.row())
    }

    fn items(&self) -> (rows: Vec<Vec<String>>) {
        let mut rows: Vec<Vec<String>> = Vec::new();
        let mut i: usize = 0;
        while i < self.inner.len()
            invariant
                i <= self.inner.len(),
                rows@.len() == i,
                forall|k: int| 0 <= k < i ==> (#[trigger] rows@[k]).deep_view() == self.inner@[k].row(),
            decreases self.inner.len() - i,
        {
            let item = &self.inner[i];
            let mut row: Vec<String> = Vec::new();
            row.push(item.deployment_name.clone());
            row.push(item.deployment_status.clone());
            row.push(item.creation_timestamp.clone());
            assert(row.deep_view() =~= item.row());
            rows.push(row);
            i += 1;
        }
        assert(rows.deep_view() =~= self.rows());
        rows
    }
}

} // verus!
