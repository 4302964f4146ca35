//! The devices that a scan has found.

use vstd::prelude::*;

verus! {

/// One playback device: the identifier that a connection is opened with, and
/// the name that is shown to the user.
#[derive(Debug, PartialEq, Eq)]
pub struct DeviceRecord {
    pub id: String,
    pub name: String,
}

/// What a device record holds, as plain text.
pub struct DeviceView {
    pub id: Seq<char>,
    pub name: Seq<char>,
}

impl View for DeviceRecord {
    type V = DeviceView;

    open spec fn view(&self) -> DeviceView {
        DeviceView { id: self.id@, name: self.name@ }
    }
}

impl Clone for DeviceRecord {
    fn clone(&self) -> (copy: Self)
        ensures
            copy@ == self@,
    {
        DeviceRecord { id: self.id.clone(), name: self.name.clone() }
    }
}

impl DeviceRecord {
    /// A record of the device `id`, shown as `name`.
    pub fn new(id: &str, name: &str) -> (record: Self)
        ensures
            record@ == (DeviceView { id: id@, name: name@ }),
    {
        DeviceRecord { id: String::from_str(id), name: String::from_str(name) }
    }
}

/// The devices found so far, in the order in which they were found. Records
/// are only ever added at the end.
#[derive(Debug, PartialEq, Eq)]
pub struct DeviceList {
    records: Vec<DeviceRecord>,
}

impl View for DeviceList {
    type V = Seq<DeviceView>;

    closed spec fn view(&self) -> Seq<DeviceView> {
        self.records@.map_values(|record: DeviceRecord| record@)
    }
}

impl DeviceList {
    /// A list without devices.
    pub fn new() -> (list: Self)
        ensures
            list@ == Seq::<DeviceView>::empty(),
    {
        let list = DeviceList { records: Vec::new() };
        assert(list@ =~= Seq::<DeviceView>::empty());
        list
    }

    /// The number of devices.
    pub fn len(&self) -> (n: usize)
        ensures
            n == self@.len(),
    {
        self.records.len()
    }

    /// Whether no device was found.
    pub fn is_empty(&self) -> (empty: bool)
        ensures
            empty == (self@.len() == 0),
    {
        self.records.len() == 0
    }

    /// Adds `record` behind the devices found before it.
    pub fn push(&mut self, record: DeviceRecord)
        ensures
            final(self)@ == old(self)@.push(record@),
    {
        self.records.push(record);
        assert(self@ =~= old(self)@.push(record@));
    }

    /// The device at position `index`, counted from zero in the order of
    /// discovery, or nothing where the list is shorter.
    pub fn get(&self, index: usize) -> (record: Option<&DeviceRecord>)
        ensures
            match record {
                Some(r) => index < self@.len() && r@ == self@[index as int],
                None => index >= self@.len(),
            },
    {
        if index < self.records.len() {
            Some(&self.records[index])
        } else {
            None
        }
    }
}

} // verus!
