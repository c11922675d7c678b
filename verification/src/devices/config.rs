//! The items of the list of core devices.

use vstd::prelude::*;
use vstd::string::StringExecFns;
use crate::aws::devices::Device;
use crate::aws::{
    lemma_filter_map_alike, lemma_map_keeps_multiset, of_key, sort_by_key, sort_key, sorted_by_key,
    Named,
};

verus! {

/// An item of the list: a name, a text to show with it, and a mark for the
/// items that the application adds by itself.
#[derive(Clone, Debug)]
pub struct Item {
    pub name: String,
    pub body: String,
    pub internal: bool,
}

impl Named for Item {
    open spec fn spec_name(&self) -> Seq<char> {
        self.name@
    }

    fn name(&self) -> (name: &str) {
        self.name.as_str()
    }
}

/// The text shown with a device: its status and the time of the last update.
pub open spec fn device_body(status: Seq<char>, updated: Seq<char>) -> Seq<char> {
    "Status: "@ + status + ", Last Updated: "@ + updated
}

/// An item as mathematical values.
pub struct ItemView {
    pub name: Seq<char>,
    pub body: Seq<char>,
    pub internal: bool,
}

impl View for Item {
    type V = ItemView;

    open spec fn view(&self) -> ItemView {
        ItemView { name: self.name@, body: self.body@, internal: self.internal }
    }
}

/// The item that shows a device.
pub open spec fn item_of(device: Device) -> ItemView {
    ItemView {
        name: device.name@,
        body: device_body(device.status@, device.last_status_update_timestamp@),
        internal: false,
    }
}

/// The items as mathematical values, in order.
pub open spec fn views_of(items: Seq<Item>) -> Seq<ItemView> {
    items.map_values(|item: Item| item@)
}

/// The items that show the devices, in the order of the devices.
pub open spec fn items_of(devices: Seq<Device>) -> Seq<ItemView> {
    devices.map_values(|device: Device| item_of(device))
}

impl Item {
    /// The item that shows a device.
    pub fn of_device(device: &Device) -> (item: Item)
        ensures
            item@ == item_of(*device),
    {
        Item {
            name: device.name.clone(),
            body: String::from_str("Status: ").concat(device.status.as_str()).concat(
                ", Last Updated: ",
            ).concat(device.last_status_update_timestamp.as_str()),
            internal: false,
        }
    }
}

/// The items that show the devices, in ascending order of their names: one
/// item for each device, and no other. The items of devices of the same name
/// stand in the order of those devices.
pub fn get_core_devices(devices: &Vec<Device>) -> (items: Vec<Item>)
    ensures
        sorted_by_key(items@, false),
        views_of(items@).to_multiset() == items_of(devices@).to_multiset(),
        forall|key: Seq<char>| #[trigger]
            views_of(of_key(items@, key, false)) == items_of(of_key(devices@, key, false)),
{
    let mut unsorted: Vec<Item> = Vec::new();
    let mut i: usize = 0;
    while i < devices.len()
        invariant
            i <= devices.len(),
            unsorted@.len() == i,
            forall|k: int| 0 <= k < i ==> (#[trigger] unsorted@[k])@ == item_of(devices@[k]),
        decreases devices.len() - i,
    {
        unsorted.push(Item::of_device(&devices[i]));
        i += 1;
    }
    assert(views_of(unsorted@) =~= items_of(devices@));
    let ghost made = unsorted@;
    let items = sort_by_key(unsorted, false);
    proof {
        lemma_map_keeps_multiset(items@, made, |item: Item| item@);
        assert forall|key: Seq<char>| #[trigger]
            views_of(of_key(items@, key, false)) == items_of(of_key(devices@, key, false)) by {
            assert(of_key(items@, key, false) == of_key(made, key, false));
            lemma_filter_map_alike(
                made,
                devices@,
                |item: Item| sort_key(item, false) == key,
                |device: Device| sort_key(device, false) == key,
                |item: Item| item@,
                |device: Device| item_of(device),
            );
        }
    }
    items
}

} // verus!
