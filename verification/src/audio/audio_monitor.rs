//! Hot-plug monitor: keeps a table of the audio devices that were seen last
//! and turns each new scan into added, removed and changed notifications.
//!
//! The table holds one entry per device id. Scanning the system is the
//! caller's part; the monitor is handed what the scan found. It never touches
//! the capture buffer or the detector.

use vstd::prelude::*;
use vstd::string::*;
use crate::error::{recorder_init_failure, JarvisError, JarvisResult, RecorderError};
use crate::text::{from_chars, get_second_field, lines, second_field, split_lines, to_chars, views};

verus! {

/// One audio device as a scan reports it.
#[derive(Debug)]
pub struct AudioDevice {
    pub id: i32,
    pub name: String,
    pub is_input: bool,
    pub is_output: bool,
    pub is_default: bool,
    pub is_available: bool,
}

/// What an `AudioDevice` holds.
pub struct DeviceView {
    pub id: int,
    pub name: Seq<char>,
    pub is_input: bool,
    pub is_output: bool,
    pub is_default: bool,
    pub is_available: bool,
}

impl View for AudioDevice {
    type V = DeviceView;

    open spec fn view(&self) -> DeviceView {
        DeviceView {
            id: self.id as int,
            name: self.name@,
            is_input: self.is_input,
            is_output: self.is_output,
            is_default: self.is_default,
            is_available: self.is_available,
        }
    }
}

/// A change in the set of devices.
#[derive(Debug)]
pub enum AudioDeviceEvent {
    DeviceAdded(AudioDevice),
    DeviceRemoved(i32),
    DeviceChanged(AudioDevice),
    DefaultDeviceChanged { device_id: i32, is_input: bool },
}

/// What an `AudioDeviceEvent` holds.
pub enum EventView {
    DeviceAdded(DeviceView),
    DeviceRemoved(int),
    DeviceChanged(DeviceView),
    DefaultDeviceChanged { device_id: int, is_input: bool },
}

impl View for AudioDeviceEvent {
    type V = EventView;

    open spec fn view(&self) -> EventView {
        match self {
            AudioDeviceEvent::DeviceAdded(d) => EventView::DeviceAdded(d@),
            AudioDeviceEvent::DeviceRemoved(id) => EventView::DeviceRemoved(*id as int),
            AudioDeviceEvent::DeviceChanged(d) => EventView::DeviceChanged(d@),
            AudioDeviceEvent::DefaultDeviceChanged { device_id, is_input } =>
                EventView::DefaultDeviceChanged { device_id: *device_id as int, is_input: *is_input },
        }
    }
}

/// The contents of each device.
pub open spec fn device_views(v: Seq<AudioDevice>) -> Seq<DeviceView> {
    Seq::new(v.len(), |i: int| v[i]@)
}

/// The contents of each event.
pub open spec fn event_views(v: Seq<AudioDeviceEvent>) -> Seq<EventView> {
    Seq::new(v.len(), |i: int| v[i]@)
}

/// Some entry of the table has this id.
pub open spec fn has_id(t: Seq<DeviceView>, id: int) -> bool {
    exists|i: int| 0 <= i < t.len() && (#[trigger] t[i]).id == id
}

/// Entry `i` is the first entry of the table with this id.
pub open spec fn is_first_with_id(t: Seq<DeviceView>, id: int, i: int) -> bool {
    &&& 0 <= i < t.len()
    &&& t[i].id == id
    &&& forall|j: int| 0 <= j < i ==> (#[trigger] t[j]).id != id
}

/// No id occurs twice in the table.
pub open spec fn unique_ids(t: Seq<DeviceView>) -> bool {
    forall|i: int, j: int|
        0 <= i < j < t.len() ==> (#[trigger] t[i]).id != (#[trigger] t[j]).id
}

/// The first entry of the table with this id.
pub open spec fn entry(t: Seq<DeviceView>, id: int) -> Option<DeviceView>
    decreases t.len(),
{
    if t.len() == 0 {
        None
    } else if t[0].id == id {
        Some(t[0])
    } else {
        entry(t.skip(1), id)
    }
}

/// The table with `d` in the place of the entry that has its id, or at the
/// end where there is none.
pub open spec fn upsert(t: Seq<DeviceView>, d: DeviceView) -> Seq<DeviceView>
    decreases t.len(),
{
    if t.len() == 0 {
        seq![d]
    } else if t[0].id == d.id {
        seq![d] + t.skip(1)
    } else {
        seq![t[0]] + upsert(t.skip(1), d)
    }
}

/// The table after each scanned device, in scan order, has been put in.
pub open spec fn merged(t: Seq<DeviceView>, scan: Seq<DeviceView>) -> Seq<DeviceView>
    decreases scan.len(),
{
    if scan.len() == 0 {
        t
    } else {
        upsert(merged(t, scan.drop_last()), scan.last())
    }
}

/// The table that a scan amounts to: one entry per id, holding what the scan
/// reported last for it, in the order in which the ids first appeared.
pub open spec fn table_of(scan: Seq<DeviceView>) -> Seq<DeviceView> {
    merged(Seq::empty(), scan)
}

/// What `entry` is where the first entry with the id is known, and where
/// there is none.
pub proof fn lemma_entry(t: Seq<DeviceView>, id: int)
    ensures
        !has_id(t, id) ==> entry(t, id) is None,
        forall|i: int| is_first_with_id(t, id, i) ==> entry(t, id) == Some(t[i]),
    decreases t.len(),
{
    if t.len() == 0 {
    } else if t[0].id == id {
        assert forall|i: int| is_first_with_id(t, id, i) implies entry(t, id) == Some(t[i]) by {
            if i > 0 {
                assert(t[0].id != id);
            }
        }
    } else {
        let rest = t.skip(1);
        lemma_entry(rest, id);
        if !has_id(t, id) {
            if has_id(rest, id) {
                let k = choose|k: int| 0 <= k < rest.len() && (#[trigger] rest[k]).id == id;
                assert(t[k + 1].id == id);
            }
        }
        assert forall|i: int| is_first_with_id(t, id, i) implies entry(t, id) == Some(t[i]) by {
            assert(i > 0);
            assert(rest[i - 1] == t[i]);
            assert forall|j: int| 0 <= j < i - 1 implies (#[trigger] rest[j]).id != id by {
                assert(rest[j] == t[j + 1]);
            }
            assert(is_first_with_id(rest, id, i - 1));
        }
    }
}

/// What `upsert` is where the first entry with the id is known, and where
/// there is none.
pub proof fn lemma_upsert(t: Seq<DeviceView>, d: DeviceView)
    ensures
        !has_id(t, d.id) ==> upsert(t, d) == t.push(d),
        forall|i: int| is_first_with_id(t, d.id, i) ==> upsert(t, d) == t.update(i, d),
    decreases t.len(),
{
    if t.len() == 0 {
        assert(seq![d] =~= t.push(d));
    } else if t[0].id == d.id {
        assert forall|i: int| is_first_with_id(t, d.id, i) implies upsert(t, d) == t.update(
            i,
            d,
        ) by {
            if i > 0 {
                assert(t[0].id != d.id);
            }
            assert(seq![d] + t.skip(1) =~= t.update(0, d));
        }
    } else {
        let rest = t.skip(1);
        lemma_upsert(rest, d);
        if !has_id(t, d.id) {
            if has_id(rest, d.id) {
                let k = choose|k: int| 0 <= k < rest.len() && (#[trigger] rest[k]).id == d.id;
                assert(t[k + 1].id == d.id);
            }
            assert(seq![t[0]] + rest.push(d) =~= t.push(d));
        }
        assert forall|i: int| is_first_with_id(t, d.id, i) implies upsert(t, d) == t.update(
            i,
            d,
        ) by {
            assert(i > 0);
            assert(rest[i - 1] == t[i]);
            assert forall|j: int| 0 <= j < i - 1 implies (#[trigger] rest[j]).id != d.id by {
                assert(rest[j] == t[j + 1]);
            }
            assert(is_first_with_id(rest, d.id, i - 1));
            assert(seq![t[0]] + rest.update(i - 1, d) =~= t.update(i, d));
        }
    }
}

/// A table that has an id has a first entry with it.
pub proof fn lemma_first_with_id_exists(t: Seq<DeviceView>, id: int)
    requires
        has_id(t, id),
    ensures
        exists|i: int| is_first_with_id(t, id, i),
    decreases t.len(),
{
    let k = choose|k: int| 0 <= k < t.len() && (#[trigger] t[k]).id == id;
    let front = t.drop_last();
    if k < t.len() - 1 {
        assert(front[k].id == id);
        lemma_first_with_id_exists(front, id);
        let i = choose|i: int| is_first_with_id(front, id, i);
        assert(t[i] == front[i]);
        assert forall|j: int| 0 <= j < i implies (#[trigger] t[j]).id != id by {
            assert(t[j] == front[j]);
        }
        assert(is_first_with_id(t, id, i));
    } else if has_id(front, id) {
        lemma_first_with_id_exists(front, id);
        let i = choose|i: int| is_first_with_id(front, id, i);
        assert(t[i] == front[i]);
        assert forall|j: int| 0 <= j < i implies (#[trigger] t[j]).id != id by {
            assert(t[j] == front[j]);
        }
        assert(is_first_with_id(t, id, i));
    } else {
        assert forall|j: int| 0 <= j < k implies (#[trigger] t[j]).id != id by {
            assert(front[j] == t[j]);
        }
        assert(is_first_with_id(t, id, k));
    }
}

/// Putting a device into a table with one entry per id leaves one entry per
/// id.
pub proof fn lemma_upsert_keeps_unique(t: Seq<DeviceView>, d: DeviceView)
    requires
        unique_ids(t),
    ensures
        unique_ids(upsert(t, d)),
        has_id(upsert(t, d), d.id),
{
    lemma_upsert(t, d);
    if has_id(t, d.id) {
        lemma_first_with_id_exists(t, d.id);
        let i = choose|i: int| is_first_with_id(t, d.id, i);
        let u = t.update(i, d);
        assert(upsert(t, d) == u);
        assert forall|a: int, b: int| 0 <= a < b < u.len() implies (#[trigger] u[a]).id != (
        #[trigger] u[b]).id by {
            assert(u[a].id == t[a].id);
            assert(u[b].id == t[b].id);
        }
        assert(u[i].id == d.id);
    } else {
        let u = t.push(d);
        assert(upsert(t, d) == u);
        assert forall|a: int, b: int| 0 <= a < b < u.len() implies (#[trigger] u[a]).id != (
        #[trigger] u[b]).id by {
            if b == t.len() {
                assert(u[a] == t[a]);
            } else {
                assert(u[a] == t[a]);
                assert(u[b] == t[b]);
            }
        }
        assert(u[t.len() as int].id == d.id);
    }
}

/// Taking a scan into a table with one entry per id leaves one entry per id.
pub proof fn lemma_merged_keeps_unique(t: Seq<DeviceView>, scan: Seq<DeviceView>)
    requires
        unique_ids(t),
    ensures
        unique_ids(merged(t, scan)),
    decreases scan.len(),
{
    if scan.len() > 0 {
        lemma_merged_keeps_unique(t, scan.drop_last());
        lemma_upsert_keeps_unique(merged(t, scan.drop_last()), scan.last());
    }
}

/// A copy of a device.
pub fn clone_device(d: &AudioDevice) -> (r: AudioDevice)
    ensures
        r == *d,
{
    AudioDevice {
        id: d.id,
        name: d.name.clone(),
        is_input: d.is_input,
        is_output: d.is_output,
        is_default: d.is_default,
        is_available: d.is_available,
    }
}

/// Whether two devices hold the same.
pub fn same_device(a: &AudioDevice, b: &AudioDevice) -> (r: bool)
    ensures
        r == (a@ == b@),
{
    a.id == b.id && a.name == b.name && a.is_input == b.is_input && a.is_output == b.is_output
        && a.is_default == b.is_default && a.is_available == b.is_available
}

/// The place of the first entry with this id.
pub fn position(table: &Vec<AudioDevice>, id: i32) -> (r: Option<usize>)
    ensures
        match r {
            Some(i) => is_first_with_id(device_views(table@), id as int, i as int),
            None => !has_id(device_views(table@), id as int),
        },
{
    let mut i: usize = 0;
    while i < table.len()
        invariant
            i <= table.len(),
            forall|j: int| 0 <= j < i ==> (#[trigger] device_views(table@)[j]).id != id,
        decreases table.len() - i,
    {
        if table[i].id == id {
            return Some(i);
        }
        i += 1;
    }
    None
}

/// Puts a device into the table: in the place of the entry with its id, or
/// at the end.
pub fn put_device(table: &mut Vec<AudioDevice>, device: AudioDevice)
    ensures
        device_views(final(table)@) == upsert(device_views(old(table)@), device@),
{
    proof {
        lemma_upsert(device_views(table@), device@);
    }
    match position(table, device.id) {
        Some(i) => {
            table[i] = device;
            proof {
                assert(device_views(table@) =~= device_views(old(table)@).update(
                    i as int,
                    device@,
                ));
            }
        },
        None => {
            table.push(device);
            proof {
                assert(device_views(table@) =~= device_views(old(table)@).push(device@));
            }
        },
    }
}

/// Puts every scanned device into the table, in scan order.
pub fn put_devices(table: &mut Vec<AudioDevice>, scan: Vec<AudioDevice>)
    ensures
        device_views(final(table)@) == merged(device_views(old(table)@), device_views(scan@)),
{
    let ghost all = device_views(scan@);
    let ghost start = device_views(table@);
    let mut i: usize = 0;
    proof {
        assert(all.take(0) =~= Seq::<DeviceView>::empty());
    }
    while i < scan.len()
        invariant
            i <= scan.len(),
            all == device_views(scan@),
            device_views(table@) == merged(start, all.take(i as int)),
        decreases scan.len() - i,
    {
        let d = clone_device(&scan[i]);
        put_device(table, d);
        proof {
            assert(all.take(i + 1).drop_last() =~= all.take(i as int));
            assert(all.take(i + 1).last() == scan@[i as int]@);
        }
        i += 1;
    }
    proof {
        assert(all.take(scan.len() as int) =~= all);
    }
}

/// The notifications for devices of the new table whose id the old table
/// does not have, in the order of the new table.
pub open spec fn added_events(old_t: Seq<DeviceView>, new_t: Seq<DeviceView>) -> Seq<EventView>
    decreases new_t.len(),
{
    if new_t.len() == 0 {
        Seq::empty()
    } else {
        added_events(old_t, new_t.drop_last()) + if has_id(old_t, new_t.last().id) {
            Seq::<EventView>::empty()
        } else {
            seq![EventView::DeviceAdded(new_t.last())]
        }
    }
}

/// The notifications for devices of the old table whose id the new table
/// does not have, in the order of the old table.
pub open spec fn removed_events(old_t: Seq<DeviceView>, new_t: Seq<DeviceView>) -> Seq<EventView>
    decreases old_t.len(),
{
    if old_t.len() == 0 {
        Seq::empty()
    } else {
        removed_events(old_t.drop_last(), new_t) + if has_id(new_t, old_t.last().id) {
            Seq::<EventView>::empty()
        } else {
            seq![EventView::DeviceRemoved(old_t.last().id)]
        }
    }
}

/// The notifications for devices of the new table that the old table holds
/// under the same id with other contents, in the order of the new table.
pub open spec fn changed_events(old_t: Seq<DeviceView>, new_t: Seq<DeviceView>) -> Seq<EventView>
    decreases new_t.len(),
{
    if new_t.len() == 0 {
        Seq::empty()
    } else {
        changed_events(old_t, new_t.drop_last()) + match entry(old_t, new_t.last().id) {
            Some(before) => if before == new_t.last() {
                Seq::<EventView>::empty()
            } else {
                seq![EventView::DeviceChanged(new_t.last())]
            },
            None => Seq::<EventView>::empty(),
        }
    }
}

/// All notifications that the step from the old table to the new one gives
/// rise to: additions first, then removals, then changes.
pub open spec fn scan_events(old_t: Seq<DeviceView>, new_t: Seq<DeviceView>) -> Seq<EventView> {
    added_events(old_t, new_t) + removed_events(old_t, new_t) + changed_events(old_t, new_t)
}

/// Appends the notifications for added devices.
pub fn collect_added(
    old_t: &Vec<AudioDevice>,
    new_t: &Vec<AudioDevice>,
    events: &mut Vec<AudioDeviceEvent>,
)
    ensures
        event_views(final(events)@) == event_views(old(events)@) + added_events(
            device_views(old_t@),
            device_views(new_t@),
        ),
{
    let ghost start = event_views(events@);
    let ghost before = device_views(old_t@);
    let ghost after = device_views(new_t@);
    let mut i: usize = 0;
    proof {
        assert(after.take(0) =~= Seq::<DeviceView>::empty());
        assert(start + Seq::<EventView>::empty() =~= start);
    }
    while i < new_t.len()
        invariant
            i <= new_t.len(),
            before == device_views(old_t@),
            after == device_views(new_t@),
            event_views(events@) == start + added_events(before, after.take(i as int)),
        decreases new_t.len() - i,
    {
        let ghost so_far = event_views(events@);
        proof {
            assert(after.take(i + 1).drop_last() =~= after.take(i as int));
            assert(after.take(i + 1).last() == new_t@[i as int]@);
        }
        if position(old_t, new_t[i].id).is_none() {
            let event = AudioDeviceEvent::DeviceAdded(clone_device(&new_t[i]));
            events.push(event);
            proof {
                assert(event_views(events@) =~= so_far + seq![event@]);
                assert(so_far + seq![event@] =~= start + added_events(before, after.take(i + 1)));
            }
        } else {
            proof {
                assert(so_far + Seq::<EventView>::empty() =~= so_far);
            }
        }
        i += 1;
    }
    proof {
        assert(after.take(new_t.len() as int) =~= after);
    }
}

/// Appends the notifications for removed devices.
pub fn collect_removed(
    old_t: &Vec<AudioDevice>,
    new_t: &Vec<AudioDevice>,
    events: &mut Vec<AudioDeviceEvent>,
)
    ensures
        event_views(final(events)@) == event_views(old(events)@) + removed_events(
            device_views(old_t@),
            device_views(new_t@),
        ),
{
    let ghost start = event_views(events@);
    let ghost before = device_views(old_t@);
    let ghost after = device_views(new_t@);
    let mut i: usize = 0;
    proof {
        assert(before.take(0) =~= Seq::<DeviceView>::empty());
        assert(start + Seq::<EventView>::empty() =~= start);
    }
    while i < old_t.len()
        invariant
            i <= old_t.len(),
            before == device_views(old_t@),
            after == device_views(new_t@),
            event_views(events@) == start + removed_events(before.take(i as int), after),
        decreases old_t.len() - i,
    {
        let ghost so_far = event_views(events@);
        proof {
            assert(before.take(i + 1).drop_last() =~= before.take(i as int));
            assert(before.take(i + 1).last() == old_t@[i as int]@);
        }
        if position(new_t, old_t[i].id).is_none() {
            let event = AudioDeviceEvent::DeviceRemoved(old_t[i].id);
            events.push(event);
            proof {
                assert(event_views(events@) =~= so_far + seq![event@]);
                assert(so_far + seq![event@] =~= start + removed_events(
                    before.take(i + 1),
                    after,
                ));
            }
        } else {
            proof {
                assert(so_far + Seq::<EventView>::empty() =~= so_far);
            }
        }
        i += 1;
    }
    proof {
        assert(before.take(old_t.len() as int) =~= before);
    }
}

/// Appends the notifications for changed devices.
pub fn collect_changed(
    old_t: &Vec<AudioDevice>,
    new_t: &Vec<AudioDevice>,
    events: &mut Vec<AudioDeviceEvent>,
)
    ensures
        event_views(final(events)@) == event_views(old(events)@) + changed_events(
            device_views(old_t@),
            device_views(new_t@),
        ),
{
    let ghost start = event_views(events@);
    let ghost before = device_views(old_t@);
    let ghost after = device_views(new_t@);
    let mut i: usize = 0;
    proof {
        assert(after.take(0) =~= Seq::<DeviceView>::empty());
        assert(start + Seq::<EventView>::empty() =~= start);
    }
    while i < new_t.len()
        invariant
            i <= new_t.len(),
            before == device_views(old_t@),
            after == device_views(new_t@),
            event_views(events@) == start + changed_events(before, after.take(i as int)),
        decreases new_t.len() - i,
    {
        let ghost so_far = event_views(events@);
        proof {
            assert(after.take(i + 1).drop_last() =~= after.take(i as int));
            assert(after.take(i + 1).last() == new_t@[i as int]@);
            lemma_entry(before, new_t@[i as int]@.id);
        }
        let changed = match position(old_t, new_t[i].id) {
            Some(k) => {
                assert(before[k as int] == old_t@[k as int]@);
                !same_device(&old_t[k], &new_t[i])
            },
            None => false,
        };
        if changed {
            let event = AudioDeviceEvent::DeviceChanged(clone_device(&new_t[i]));
            events.push(event);
            proof {
                assert(event_views(events@) =~= so_far + seq![event@]);
                assert(so_far + seq![event@] =~= start + changed_events(
                    before,
                    after.take(i + 1),
                ));
            }
        } else {
            proof {
                assert(so_far + Seq::<EventView>::empty() =~= so_far);
            }
        }
        i += 1;
    }
    proof {
        assert(after.take(new_t.len() as int) =~= after);
    }
}

/// The notifications for the step from the old table to the new one.
pub fn diff_devices(old_t: &Vec<AudioDevice>, new_t: &Vec<AudioDevice>) -> (r: Vec<
    AudioDeviceEvent,
>)
    ensures
        event_views(r@) == scan_events(device_views(old_t@), device_views(new_t@)),
{
    let mut events: Vec<AudioDeviceEvent> = Vec::new();
    proof {
        assert(event_views(events@) =~= Seq::<EventView>::empty());
    }
    collect_added(old_t, new_t, &mut events);
    collect_removed(old_t, new_t, &mut events);
    collect_changed(old_t, new_t, &mut events);
    proof {
        let a = added_events(device_views(old_t@), device_views(new_t@));
        let b = removed_events(device_views(old_t@), device_views(new_t@));
        let c = changed_events(device_views(old_t@), device_views(new_t@));
        assert(Seq::<EventView>::empty() + a + b + c =~= a + b + c);
    }
    events
}

/// A copy of an event.
pub fn clone_event(e: &AudioDeviceEvent) -> (r: AudioDeviceEvent)
    ensures
        r == *e,
{
    match e {
        AudioDeviceEvent::DeviceAdded(d) => AudioDeviceEvent::DeviceAdded(clone_device(d)),
        AudioDeviceEvent::DeviceRemoved(id) => AudioDeviceEvent::DeviceRemoved(*id),
        AudioDeviceEvent::DeviceChanged(d) => AudioDeviceEvent::DeviceChanged(clone_device(d)),
        AudioDeviceEvent::DefaultDeviceChanged { device_id, is_input } =>
            AudioDeviceEvent::DefaultDeviceChanged { device_id: *device_id, is_input: *is_input },
    }
}

/// A copy of a device list.
pub fn clone_devices(devices: &Vec<AudioDevice>) -> (r: Vec<AudioDevice>)
    ensures
        r@ == devices@,
{
    let mut out: Vec<AudioDevice> = Vec::new();
    let mut i: usize = 0;
    while i < devices.len()
        invariant
            i <= devices.len(),
            out@ == devices@.take(i as int),
        decreases devices.len() - i,
    {
        out.push(clone_device(&devices[i]));
        proof {
            assert(devices@.take(i as int).push(devices@[i as int]) =~= devices@.take(i + 1));
        }
        i += 1;
    }
    proof {
        assert(devices@.take(devices.len() as int) =~= devices@);
    }
    out
}

/// Milliseconds between two scans of a new monitor.
pub const DEFAULT_UPDATE_INTERVAL: u64 = 1000;

/// The device monitor: the table of the devices seen last, the observers to
/// notify, and whether the polling worker should run.
///
/// `F` is the type of the observers.
pub struct AudioMonitor<F> {
    devices: Vec<AudioDevice>,
    callbacks: Vec<F>,
    is_running: bool,
    update_interval: u64,
}

/// The input devices that the capture device lists, as the monitor records
/// them: available inputs, the selected one marked as default.
pub open spec fn input_devices(list: Seq<(i32, String)>, selected: int) -> Seq<DeviceView> {
    Seq::new(
        list.len(),
        |i: int|
            DeviceView {
                id: list[i].0 as int,
                name: list[i].1@,
                is_input: true,
                is_output: false,
                is_default: list[i].0 == selected,
                is_available: true,
            },
    )
}

/// Puts the devices of the system together: the capture device's inputs,
/// where it could list them, followed by the output devices. The selected
/// microphone is the default input; `-1` stands for none.
pub fn get_system_devices_static(
    recorder_devices: JarvisResult<Vec<(i32, String)>>,
    selected: JarvisResult<i32>,
    outputs: JarvisResult<Vec<AudioDevice>>,
) -> (r: JarvisResult<Vec<AudioDevice>>)
    ensures
        outputs is Err ==> r is Err,
        outputs matches Ok(out) ==> r matches Ok(all) && device_views(all@) == (match
        recorder_devices {
            Ok(list) => input_devices(
                list@,
                match selected {
                    Ok(i) => i as int,
                    Err(_) => -1,
                },
            ),
            Err(_) => Seq::empty(),
        }) + device_views(out@),
{
    let mut devices: Vec<AudioDevice> = Vec::new();
    let chosen: i32 = match selected {
        Ok(i) => i,
        Err(_) => -1,
    };
    proof {
        assert(device_views(devices@) =~= Seq::<DeviceView>::empty());
    }
    match recorder_devices {
        Ok(list) => {
            let mut i: usize = 0;
            proof {
                assert(input_devices(list@, chosen as int).take(0) =~= device_views(devices@));
            }
            while i < list.len()
                invariant
                    i <= list.len(),
                    device_views(devices@) == input_devices(list@, chosen as int).take(i as int),
                decreases list.len() - i,
            {
                let device = AudioDevice {
                    id: list[i].0,
                    name: list[i].1.clone(),
                    is_input: true,
                    is_output: false,
                    is_default: list[i].0 == chosen,
                    is_available: true,
                };
                let ghost so_far = device_views(devices@);
                let ghost target = input_devices(list@, chosen as int);
                proof {
                    assert(device@ == target[i as int]);
                }
                devices.push(device);
                proof {
                    assert(device_views(devices@) =~= so_far.push(target[i as int]));
                    assert(target.take(i as int).push(target[i as int]) =~= target.take(i + 1));
                }
                i += 1;
            }
            proof {
                assert(input_devices(list@, chosen as int).take(list.len() as int)
                    =~= input_devices(list@, chosen as int));
            }
        },
        Err(_) => {},
    }
    let out = match outputs {
        Ok(out) => out,
        Err(e) => {
            return Err(e);
        },
    };
    let ghost inputs = device_views(devices@);
    let mut k: usize = 0;
    proof {
        assert(inputs + device_views(out@).take(0) =~= inputs);
    }
    while k < out.len()
        invariant
            k <= out.len(),
            device_views(devices@) == inputs + device_views(out@).take(k as int),
        decreases out.len() - k,
    {
        let ghost so_far = device_views(devices@);
        devices.push(clone_device(&out[k]));
        proof {
            assert(device_views(devices@) =~= so_far.push(out@[k as int]@));
            assert(device_views(out@).take(k + 1) =~= device_views(out@).take(k as int).push(
                out@[k as int]@,
            ));
            assert(so_far.push(out@[k as int]@) =~= inputs + device_views(out@).take(k + 1));
        }
        k += 1;
    }
    proof {
        assert(device_views(out@).take(out.len() as int) =~= device_views(out@));
    }
    Ok(devices)
}

/// Every observer may be called with every event.
pub open spec fn accept_every_event<F: Fn(AudioDeviceEvent)>(observers: Seq<F>) -> bool {
    forall|i: int, e: AudioDeviceEvent|
        0 <= i < observers.len() ==> #[trigger] call_requires(observers[i], (e,))
}

impl<F: Fn(AudioDeviceEvent)> AudioMonitor<F> {
    /// The table of the devices seen last.
    pub closed spec fn table(&self) -> Seq<DeviceView> {
        device_views(self.devices@)
    }

    /// Whether the polling worker should run.
    pub closed spec fn running(&self) -> bool {
        self.is_running
    }

    /// Milliseconds between two scans.
    pub closed spec fn interval(&self) -> u64 {
        self.update_interval
    }

    /// The registered observers, in the order of their registration.
    pub closed spec fn observers(&self) -> Seq<F> {
        self.callbacks@
    }

    /// A stopped monitor without devices or observers.
    pub fn new() -> (r: Self)
        ensures
            r.table() == Seq::<DeviceView>::empty(),
            unique_ids(r.table()),
            r.observers() == Seq::<F>::empty(),
            !r.running(),
            r.interval() == DEFAULT_UPDATE_INTERVAL,
    {
        let r = AudioMonitor {
            devices: Vec::new(),
            callbacks: Vec::new(),
            is_running: false,
            update_interval: DEFAULT_UPDATE_INTERVAL,
        };
        proof {
            assert(r.table() =~= Seq::<DeviceView>::empty());
        }
        r
    }

    /// Switches monitoring on. The result says whether the caller has to
    /// make the first scan and start the polling worker: it has not where
    /// monitoring was already on.
    pub fn start(&mut self) -> (r: JarvisResult<bool>)
        ensures
            r == Ok::<bool, JarvisError>(!old(self).running()),
            final(self).running(),
            final(self).table() == old(self).table(),
            final(self).observers() == old(self).observers(),
            final(self).interval() == old(self).interval(),
    {
        if self.is_running {
            return Ok(false);
        }
        self.is_running = true;
        Ok(true)
    }

    /// Switches monitoring off; the polling worker ends at its next check.
    pub fn stop(&mut self) -> (r: JarvisResult<()>)
        ensures
            r is Ok,
            !final(self).running(),
            final(self).table() == old(self).table(),
            final(self).observers() == old(self).observers(),
            final(self).interval() == old(self).interval(),
    {
        if !self.is_running {
            return Ok(());
        }
        self.is_running = false;
        Ok(())
    }

    /// Registers an observer.
    pub fn add_callback(&mut self, callback: F) -> (r: JarvisResult<()>)
        requires
            forall|e: AudioDeviceEvent| call_requires(callback, (e,)),
        ensures
            r is Ok,
            final(self).observers() == old(self).observers().push(callback),
            final(self).table() == old(self).table(),
            final(self).running() == old(self).running(),
            final(self).interval() == old(self).interval(),
    {
        self.callbacks.push(callback);
        Ok(())
    }

    /// The devices seen last.
    pub fn get_devices(&self) -> (r: JarvisResult<Vec<AudioDevice>>)
        ensures
            r matches Ok(devices) && device_views(devices@) == self.table(),
    {
        Ok(clone_devices(&self.devices))
    }

    /// The device with this id, if the table has one.
    pub fn get_device(&self, id: i32) -> (r: JarvisResult<Option<AudioDevice>>)
        ensures
            r matches Ok(found) && (match found {
                Some(d) => entry(self.table(), id as int) == Some(d@),
                None => entry(self.table(), id as int) is None,
            }),
    {
        proof {
            lemma_entry(device_views(self.devices@), id as int);
        }
        match position(&self.devices, id) {
            Some(i) => {
                assert(device_views(self.devices@)[i as int] == self.devices@[i as int]@);
                Ok(Some(clone_device(&self.devices[i])))
            },
            None => Ok(None),
        }
    }

    /// Whether the table has this device and the device is available.
    pub fn is_device_available(&self, device_id: i32) -> (r: bool)
        ensures
            r == (entry(self.table(), device_id as int) matches Some(d) && d.is_available),
    {
        match self.get_device(device_id) {
            Ok(Some(d)) => d.is_available,
            _ => false,
        }
    }

    /// Whether monitoring is on.
    pub fn is_running(&self) -> (r: bool)
        ensures
            r == self.running(),
    {
        self.is_running
    }

    /// Whether the polling worker has to scan now, given the milliseconds
    /// since its last scan.
    pub fn scan_due(&self, since_last_scan: u64) -> (r: bool)
        ensures
            r == (self.running() && since_last_scan >= self.interval()),
    {
        self.is_running && since_last_scan >= self.update_interval
    }

    /// Hands every event, in order, to every observer, in the order of
    /// registration.
    pub fn notify(&self, events: &Vec<AudioDeviceEvent>)
        requires
            accept_every_event(self.observers()),
    {
        let mut i: usize = 0;
        while i < events.len()
            invariant
                i <= events.len(),
                forall|k: int, e: AudioDeviceEvent|
                    0 <= k < self.callbacks@.len() ==> #[trigger] call_requires(
                        self.callbacks@[k],
                        (e,),
                    ),
            decreases events.len() - i,
        {
            let mut j: usize = 0;
            while j < self.callbacks.len()
                invariant
                    i < events.len(),
                    j <= self.callbacks.len(),
                    forall|k: int, e: AudioDeviceEvent|
                        0 <= k < self.callbacks@.len() ==> #[trigger] call_requires(
                            self.callbacks@[k],
                            (e,),
                        ),
                decreases self.callbacks.len() - j,
            {
                let observer = &self.callbacks[j];
                observer(clone_event(&events[i]));
                j += 1;
            }
            i += 1;
        }
    }

    /// Takes the first scan: every device found is put into the table.
    pub fn scan_devices_initial(&mut self, current: Vec<AudioDevice>) -> (r: JarvisResult<()>)
        ensures
            r is Ok,
            final(self).table() == merged(old(self).table(), device_views(current@)),
            unique_ids(old(self).table()) ==> unique_ids(final(self).table()),
            final(self).observers() == old(self).observers(),
            final(self).running() == old(self).running(),
            final(self).interval() == old(self).interval(),
    {
        proof {
            if unique_ids(device_views(self.devices@)) {
                lemma_merged_keeps_unique(device_views(self.devices@), device_views(current@));
            }
        }
        put_devices(&mut self.devices, current);
        Ok(())
    }

    /// Takes a later scan: the table becomes what the scan found, and the
    /// observers are told of every device that was added, removed or changed.
    /// A scan that failed changes nothing.
    pub fn scan_devices_update(&mut self, current: JarvisResult<Vec<AudioDevice>>) -> (r:
        JarvisResult<Vec<AudioDeviceEvent>>)
        requires
            accept_every_event(old(self).observers()),
        ensures
            r matches Ok(events) && (match current {
                Ok(scan) => final(self).table() == table_of(device_views(scan@)) && event_views(
                    events@,
                ) == scan_events(old(self).table(), final(self).table()),
                Err(_) => final(self).table() == old(self).table() && events@.len() == 0,
            }),
            current is Ok || unique_ids(old(self).table()) ==> unique_ids(final(self).table()),
            final(self).observers() == old(self).observers(),
            final(self).running() == old(self).running(),
            final(self).interval() == old(self).interval(),
    {
        let scan = match current {
            Ok(scan) => scan,
            Err(_) => {
                return Ok(Vec::new());
            },
        };
        let mut fresh: Vec<AudioDevice> = Vec::new();
        proof {
            assert(device_views(fresh@) =~= Seq::<DeviceView>::empty());
        }
        proof {
            lemma_merged_keeps_unique(Seq::<DeviceView>::empty(), device_views(scan@));
        }
        put_devices(&mut fresh, scan);
        let events = diff_devices(&self.devices, &fresh);
        self.notify(&events);
        self.devices = fresh;
        Ok(events)
    }
}

fn monitor_failed<T>(msg: &str) -> (r: JarvisResult<T>)
    ensures
        recorder_init_failure(r, msg@),
{
    Err(JarvisError::RecorderError(RecorderError::InitializationFailed(String::from_str(msg))))
}

/// Sets up the one monitor of the process and switches it on. A second call
/// fails and leaves the monitor as it is.
pub fn init_audio_monitor<F: Fn(AudioDeviceEvent)>(slot: &mut Option<AudioMonitor<F>>) -> (r:
    JarvisResult<()>)
    ensures
        *old(slot) is Some ==> *final(slot) == *old(slot) && recorder_init_failure(
            r,
            "Audio monitor already initialized"@,
        ),
        *old(slot) is None ==> r is Ok && (match *final(slot) {
            Some(m) => m.running() && m.table() == Seq::<DeviceView>::empty() && m.observers()
                == Seq::<F>::empty(),
            None => false,
        }),
{
    if slot.is_some() {
        return monitor_failed("Audio monitor already initialized");
    }
    let mut monitor = AudioMonitor::new();
    let started = monitor.start();
    *slot = Some(monitor);
    match started {
        Ok(_) => Ok(()),
        Err(e) => Err(e),
    }
}

/// The monitor of the process, once it has been set up.
pub fn get_audio_monitor<F: Fn(AudioDeviceEvent)>(slot: &Option<AudioMonitor<F>>) -> (r: Option<
    &AudioMonitor<F>,
>)
    ensures
        match r {
            Some(m) => *slot == Some(*m),
            None => *slot is None,
        },
{
    match slot {
        Some(m) => Some(m),
        None => None,
    }
}

/// Registers an observer with the monitor of the process.
pub fn add_device_callback<F: Fn(AudioDeviceEvent)>(
    slot: &mut Option<AudioMonitor<F>>,
    callback: F,
) -> (r: JarvisResult<()>)
    requires
        forall|e: AudioDeviceEvent| call_requires(callback, (e,)),
    ensures
        *old(slot) is None ==> *final(slot) is None && recorder_init_failure(
            r,
            "Audio monitor not initialized"@,
        ),
        *old(slot) is Some ==> r is Ok && (match *final(slot) {
            Some(after) => after.observers() == (*old(slot))->0.observers().push(callback)
                && after.table() == (*old(slot))->0.table() && after.running() == (*old(slot))->0.running(),
            None => false,
        }),
{
    match slot {
        Some(monitor) => monitor.add_callback(callback),
        None => monitor_failed("Audio monitor not initialized"),
    }
}

/// The devices that the monitor of the process saw last.
pub fn get_all_devices<F: Fn(AudioDeviceEvent)>(slot: &Option<AudioMonitor<F>>) -> (r:
    JarvisResult<Vec<AudioDevice>>)
    ensures
        match *slot {
            Some(m) => r matches Ok(devices) && device_views(devices@) == m.table(),
            None => recorder_init_failure(r, "Audio monitor not initialized"@),
        },
{
    match slot {
        Some(monitor) => monitor.get_devices(),
        None => monitor_failed("Audio monitor not initialized"),
    }
}

/// Whether the monitor of the process is set up and switched on.
pub fn is_running<F: Fn(AudioDeviceEvent)>(slot: &Option<AudioMonitor<F>>) -> (r: bool)
    ensures
        r == (*slot matches Some(m) && m.running()),
{
    match slot {
        Some(monitor) => monitor.is_running(),
        None => false,
    }
}

/// Switches the monitor of the process off, where there is one.
pub fn shutdown_audio_monitor<F: Fn(AudioDeviceEvent)>(slot: &mut Option<AudioMonitor<F>>) -> (r:
    JarvisResult<()>)
    ensures
        r is Ok,
        *old(slot) is None ==> *final(slot) is None,
        *old(slot) is Some ==> (match *final(slot) {
            Some(after) => !after.running() && after.table() == (*old(slot))->0.table()
                && after.observers() == (*old(slot))->0.observers(),
            None => false,
        }),
{
    match slot {
        Some(monitor) => monitor.stop(),
        None => Ok(()),
    }
}

/// The ids of output devices begin here, apart from those of the inputs.
pub const OUTPUT_ID_BASE: i32 = 2000;

/// The output devices that a listing of sinks names. The listing has one
/// sink per line with its fields divided by tabs, the name second. Lines
/// without a second field name nothing. A sink's id is its line number on
/// top of `OUTPUT_ID_BASE`; the sink of the first line is the default one.
pub open spec fn sink_devices(ls: Seq<Seq<char>>) -> Seq<DeviceView>
    decreases ls.len(),
{
    if ls.len() == 0 {
        Seq::empty()
    } else {
        let k = ls.len() - 1;
        sink_devices(ls.drop_last()) + match second_field(ls.last()) {
            Some(name) => if OUTPUT_ID_BASE + k <= i32::MAX {
                seq![
                    DeviceView {
                        id: OUTPUT_ID_BASE + k,
                        name,
                        is_input: false,
                        is_output: true,
                        is_default: k == 0,
                        is_available: true,
                    },
                ]
            } else {
                Seq::<DeviceView>::empty()
            },
            None => Seq::<DeviceView>::empty(),
        }
    }
}

/// Reads the output devices off a listing of sinks; without a listing there
/// are none.
pub fn get_output_devices(listing: Option<&str>) -> (r: JarvisResult<Vec<AudioDevice>>)
    ensures
        r matches Ok(devices) && device_views(devices@) == (match listing {
            Some(text) => sink_devices(lines(text@)),
            None => Seq::empty(),
        }),
{
    let mut devices: Vec<AudioDevice> = Vec::new();
    proof {
        assert(device_views(devices@) =~= Seq::<DeviceView>::empty());
    }
    let text = match listing {
        Some(text) => text,
        None => {
            return Ok(devices);
        },
    };
    let chars = to_chars(text);
    let ls = split_lines(&chars);
    let ghost all = views(ls@);
    let mut k: usize = 0;
    proof {
        assert(all.take(0) =~= Seq::<Seq<char>>::empty());
    }
    while k < ls.len()
        invariant
            k <= ls.len(),
            all == views(ls@),
            device_views(devices@) == sink_devices(all.take(k as int)),
        decreases ls.len() - k,
    {
        let ghost so_far = device_views(devices@);
        proof {
            assert(all.take(k + 1).drop_last() =~= all.take(k as int));
            assert(all.take(k + 1).last() == ls@[k as int]@);
            assert(all.take(k + 1).len() - 1 == k);
        }
        match get_second_field(&ls[k]) {
            Some(name) => {
                if k <= (i32::MAX - OUTPUT_ID_BASE) as usize {
                    let device = AudioDevice {
                        id: OUTPUT_ID_BASE + k as i32,
                        name: from_chars(&name),
                        is_input: false,
                        is_output: true,
                        is_default: k == 0,
                        is_available: true,
                    };
                    devices.push(device);
                    proof {
                        assert(device_views(devices@) =~= so_far + seq![device@]);
                    }
                } else {
                    proof {
                        assert(so_far + Seq::<DeviceView>::empty() =~= so_far);
                    }
                }
            },
            None => {
                proof {
                    assert(so_far + Seq::<DeviceView>::empty() =~= so_far);
                }
            },
        }
        k += 1;
    }
    proof {
        assert(all.take(ls.len() as int) =~= all);
    }
    Ok(devices)
}

/// The input devices that a listing of sources names, as pairs of line
/// number and name. Lines without a second field name nothing.
pub open spec fn source_entries(ls: Seq<Seq<char>>) -> Seq<(int, Seq<char>)>
    decreases ls.len(),
{
    if ls.len() == 0 {
        Seq::empty()
    } else {
        let k = ls.len() - 1;
        source_entries(ls.drop_last()) + match second_field(ls.last()) {
            Some(name) => if k <= i32::MAX {
                seq![(k, name)]
            } else {
                Seq::<(int, Seq<char>)>::empty()
            },
            None => Seq::<(int, Seq<char>)>::empty(),
        }
    }
}

/// What each listed input device holds.
pub open spec fn entry_views(v: Seq<(i32, String)>) -> Seq<(int, Seq<char>)> {
    Seq::new(v.len(), |i: int| (v[i].0 as int, v[i].1@))
}

/// Reads the input devices off a listing of sources.
pub fn get_input_devices(listing: &str) -> (r: Vec<(i32, String)>)
    ensures
        entry_views(r@) == source_entries(lines(listing@)),
{
    let mut devices: Vec<(i32, String)> = Vec::new();
    let chars = to_chars(listing);
    let ls = split_lines(&chars);
    let ghost all = views(ls@);
    let mut k: usize = 0;
    proof {
        assert(all.take(0) =~= Seq::<Seq<char>>::empty());
        assert(entry_views(devices@) =~= Seq::<(int, Seq<char>)>::empty());
    }
    while k < ls.len()
        invariant
            k <= ls.len(),
            all == views(ls@),
            entry_views(devices@) == source_entries(all.take(k as int)),
        decreases ls.len() - k,
    {
        let ghost so_far = entry_views(devices@);
        proof {
            assert(all.take(k + 1).drop_last() =~= all.take(k as int));
            assert(all.take(k + 1).last() == ls@[k as int]@);
            assert(all.take(k + 1).len() - 1 == k);
        }
        match get_second_field(&ls[k]) {
            Some(name) => {
                if k <= i32::MAX as usize {
                    let entry = (k as i32, from_chars(&name));
                    let ghost shown = (k as int, name@);
                    devices.push(entry);
                    proof {
                        assert(entry_views(devices@) =~= so_far + seq![shown]);
                    }
                } else {
                    proof {
                        assert(so_far + Seq::<(int, Seq<char>)>::empty() =~= so_far);
                    }
                }
            },
            None => {
                proof {
                    assert(so_far + Seq::<(int, Seq<char>)>::empty() =~= so_far);
                }
            },
        }
        k += 1;
    }
    proof {
        assert(all.take(ls.len() as int) =~= all);
    }
    devices
}

} // verus!
