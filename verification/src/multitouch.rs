//! The device list of the MultitouchSupport runtime: which devices it starts,
//! each once and none null.

use vstd::prelude::*;

verus! {

/// A MultitouchSupport device, by its address; zero is the null device.
pub type MtDeviceRef = usize;

/// A MultitouchSupport status is success iff it is zero.
pub fn mt_status_is_success(status: i32) -> (r: bool)
    ensures
        r == (status == 0),
{
    status == 0
}

/// `devices` with `device` added at the end, unless it is null or already there.
pub open spec fn with_unique_device(devices: Seq<MtDeviceRef>, device: MtDeviceRef) -> Seq<MtDeviceRef> {
    if device == 0 || devices.contains(device) {
        devices
    } else {
        devices.push(device)
    }
}

/// The devices of `candidates`, in order, without nulls and without repeats.
pub open spec fn unique_devices(candidates: Seq<MtDeviceRef>) -> Seq<MtDeviceRef>
    decreases candidates.len(),
{
    if candidates.len() == 0 {
        Seq::empty()
    } else {
        with_unique_device(unique_devices(candidates.drop_last()), candidates.last())
    }
}

/// Adds `device` unless it is null or already listed.
pub fn push_unique_device(devices: &mut Vec<MtDeviceRef>, device: MtDeviceRef)
    ensures
        final(devices)@ == with_unique_device(old(devices)@, device),
{
    if device == 0 {
        return;
    }
    let mut i: usize = 0;
    while i < devices.len()
        invariant
            i <= devices.len(),
            device != 0,
            forall|j: int| 0 <= j < i ==> devices@[j] != device,
        decreases devices.len() - i,
    {
        if devices[i] == device {
            assert(devices@.contains(device));
            return;
        }
        i = i + 1;
    }
    devices.push(device);
}

/// The devices to start: those of the device list, then the default device,
/// each once and none null; an error when there are none.
pub fn create_multitouch_devices(listed_devices: &Vec<MtDeviceRef>, default_device: Option<MtDeviceRef>) -> (r: Result<Vec<MtDeviceRef>, String>)
    ensures
        ({
            let candidates = match default_device {
                Some(d) => listed_devices@.push(d),
                None => listed_devices@,
            };
            match r {
                Ok(devices) => devices@ == unique_devices(candidates) && devices@.len() > 0,
                Err(message) => unique_devices(candidates).len() == 0 && message@
                    == "no MultitouchSupport devices available"@,
            }
        }),
{
    let mut devices: Vec<MtDeviceRef> = Vec::new();
    let mut i: usize = 0;
    while i < listed_devices.len()
        invariant
            i <= listed_devices.len(),
            devices@ == unique_devices(listed_devices@.take(i as int)),
        decreases listed_devices.len() - i,
    {
        assert(listed_devices@.take(i + 1).drop_last() == listed_devices@.take(i as int));
        push_unique_device(&mut devices, listed_devices[i]);
        i = i + 1;
    }
    assert(listed_devices@.take(listed_devices.len() as int) == listed_devices@);
    if let Some(device) = default_device {
        assert(listed_devices@.push(device).drop_last() == listed_devices@);
        push_unique_device(&mut devices, device);
    }
    if devices.len() == 0 {
        return Err(String::from_str("no MultitouchSupport devices available"));
    }
    Ok(devices)
}

/// How many of the start statuses report success.
pub open spec fn started_count(start_statuses: Seq<i32>) -> nat
    decreases start_statuses.len(),
{
    if start_statuses.len() == 0 {
        0
    } else {
        started_count(start_statuses.drop_last()) + if start_statuses.last() == 0 {
            1nat
        } else {
            0nat
        }
    }
}

/// The outcome of starting the devices, from the status each start returned:
/// the number started, or an error when none was.
pub fn multitouch_start_result(start_statuses: &Vec<i32>) -> (r: Result<usize, String>)
    ensures
        match r {
            Ok(count) => count == started_count(start_statuses@) && count > 0,
            Err(message) => started_count(start_statuses@) == 0 && message@
                == "no MultitouchSupport devices started"@,
        },
{
    let mut started: usize = 0;
    let mut i: usize = 0;
    while i < start_statuses.len()
        invariant
            i <= start_statuses.len(),
            started == started_count(start_statuses@.take(i as int)),
            started <= i,
        decreases start_statuses.len() - i,
    {
        assert(start_statuses@.take(i + 1).drop_last() == start_statuses@.take(i as int));
        if mt_status_is_success(start_statuses[i]) {
            started = started + 1;
        }
        i = i + 1;
    }
    assert(start_statuses@.take(start_statuses.len() as int) == start_statuses@);
    if started == 0 {
        return Err(String::from_str("no MultitouchSupport devices started"));
    }
    Ok(started)
}

} // verus!

verus! {

/// The devices that are started are exactly the non-null candidates, each
/// once: none is null, none repeats, and a device is among them iff it is a
/// non-null candidate.
pub proof fn lemma_unique_devices_dedup(candidates: Seq<MtDeviceRef>)
    ensures
        forall|i: int|
            0 <= i < unique_devices(candidates).len() ==> #[trigger] unique_devices(candidates)[i]
                != 0,
        forall|i: int, j: int|
            0 <= i < j < unique_devices(candidates).len() ==> unique_devices(candidates)[i]
                != unique_devices(candidates)[j],
        forall|d: MtDeviceRef|
            #[trigger] unique_devices(candidates).contains(d) <==> (d != 0 && candidates.contains(d)),
    decreases candidates.len(),
{
    if candidates.len() > 0 {
        let init = candidates.drop_last();
        lemma_unique_devices_dedup(init);
        let u = unique_devices(init);
        let last = candidates.last();
        assert forall|d: MtDeviceRef| #[trigger] candidates.contains(d) <==> (init.contains(d) || d
            == last) by {
            if candidates.contains(d) {
                let k = choose|k: int| 0 <= k < candidates.len() && candidates[k] == d;
                if k < candidates.len() - 1 {
                    assert(init[k] == d);
                }
            }
            if init.contains(d) {
                let k = choose|k: int| 0 <= k < init.len() && init[k] == d;
                assert(candidates[k] == d);
            }
            if d == last {
                assert(candidates[candidates.len() - 1] == d);
            }
        }
        if !(last == 0 || u.contains(last)) {
            let v = u.push(last);
            assert forall|d: MtDeviceRef| #[trigger] v.contains(d) <==> (u.contains(d) || d
                == last) by {
                if v.contains(d) {
                    let k = choose|k: int| 0 <= k < v.len() && v[k] == d;
                    if k < u.len() {
                        assert(u[k] == d);
                    }
                }
                if u.contains(d) {
                    let k = choose|k: int| 0 <= k < u.len() && u[k] == d;
                    assert(v[k] == d);
                }
                if d == last {
                    assert(v[v.len() - 1] == d);
                }
            }
        }
    }
}

} // verus!
