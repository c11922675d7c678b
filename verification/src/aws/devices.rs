//! Greengrass core devices.

use vstd::prelude::*;
use vstd::std_specs::convert::FromSpecImpl;
use crate::aws::{of_key, sort_by_name, sorted_by_name, Named, Property};

verus! {

/// Representation of a device.
#[derive(Clone, Debug, Default)]
pub struct Device {
    /// Name of the core device.
    pub name: String,
    /// Whether the thing is currently connected.
    pub is_connected: bool,
    /// Device status, healthy or unhealthy.
    pub status: String,
    /// The time at which the status of the core device was last updated.
    pub last_status_update_timestamp: String,
}

impl Device {
    /// The row that shows the device: name, status, time of the last update.
    pub open spec fn row(self) -> Seq<Seq<char>> {
        seq![self.name@, self.status@, self.last_status_update_timestamp@]
    }
}

impl Named for Device {
    open spec fn spec_name(&self) -> Seq<char> {
        self.name@
    }

    fn name(&self) -> (name: &str) {
        self.name.as_str()
    }
}

/// Greengrass core devices.
#[derive(Clone, Debug)]
pub struct Devices {
    inner: Vec<Device>,
}

impl View for Devices {
    type V = Seq<Device>;

    closed spec fn view(&self) -> Seq<Device> {
        self.inner@
    }
}

impl Devices {
    /// The collection that holds `inner`.
    pub closed spec fn of(inner: Vec<Device>) -> Devices {
        Devices { inner }
    }

    /// The devices in ascending order of their names, compared without regard
    /// to case; those whose names differ in case alone keep their order.
    pub fn sorted(items: Vec<Device>) -> (devices: Devices)
        ensures
            sorted_by_name(devices@),
            devices@.to_multiset() == items@.to_multiset(),
            forall|key: Seq<char>| #[trigger] of_key(devices@, key, true) == of_key(items@, key, true),
    {
        Devices { inner: sort_by_name(items) }
    }
}

impl From<Vec<Device>> for Devices {
    fn from(inner: Vec<Device>) -> (devices: Devices)
        ensures
            devices@ == inner@,
    {
        Devices { inner }
    }
}

impl FromSpecImpl<Vec<Device>> for Devices {
    open spec fn obeys_from_spec() -> bool {
        true
    }

    open spec fn from_spec(inner: Vec<Device>) -> Devices {
        Devices::of(inner)
    }
}

impl<'a> Property<'a> for Devices {
    open spec fn rows(&self) -> Seq<Seq<Seq<char>>> {
        self@.map_values(|device: Device| device.row())
    }

    fn items(&self) -> (rows: Vec<Vec<String>>) {
        let mut rows: Vec<Vec<String>> = Vec::new();
        let mut i: usize = 0;
        while i < self.inner.len()
            invariant
                i <= self.inner.len(),
                rows@.len() == i,
                forall|k: int| 0 <= k < i ==> (#[trigger] rows@[k]).deep_view() == self.inner@[k].row(),
            decreases self.inner.len() - i,
        {
            let item = &self.inner[i];
            let mut row: Vec<String> = Vec::new();
            row.push(item.name.clone());
            row.push(item.status.clone());
            row.push(item.last_status_update_timestamp.clone());
            assert(row.deep_view() =~= item.row());
            rows.push(row);
            i += 1;
        }
        assert(rows.deep_view() =~= self.rows());
        rows
    }
}

} // verus!
