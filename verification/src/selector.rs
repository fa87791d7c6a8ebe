//! Choosing the peripheral to connect to from one scan pass.

use vstd::prelude::*;

verus! {

/// What a peripheral advertised during a scan pass.
#[derive(Clone, Debug, PartialEq, Eq)]
pub struct DeviceProperties {
    /// Advertised local name, if any.
    pub local_name: Option<String>,
    /// Received signal strength, if reported. Diagnostic only.
    pub rssi: Option<i16>,
    /// Advertised service identifiers, as 128-bit values.
    pub services: Vec<u128>,
}

/// One entry of a scan pass, in the order the adapter reported it.
#[derive(Clone, Debug, PartialEq, Eq)]
pub struct DiscoveredDevice {
    /// Radio address, as a 48-bit value.
    pub address: u64,
    /// Advertised properties; `None` where they could not be read.
    pub properties: Option<DeviceProperties>,
}

impl DiscoveredDevice {
    /// Whether the device advertises `target` among its services. A device
    /// whose properties could not be read advertises nothing.
    pub open spec fn advertises(&self, target: u128) -> bool {
        match self.properties {
            Some(props) => props.services@.contains(target),
            None => false,
        }
    }

    /// Decides [`Self::advertises`].
    pub fn has_service(&self, target: u128) -> (found: bool)
        ensures
            found == self.advertises(target),
    {
        match &self.properties {
            None => false,
            Some(props) => {
                let mut i: usize = 0;
                while i < props.services.len()
                    invariant
                        self.properties == Some(*props),
                        i <= props.services@.len(),
                        forall|k: int| 0 <= k < i ==> props.services@[k] != target,
                    decreases props.services@.len() - i,
                {
                    if props.services[i] == target {
                        assert(props.services@[i as int] == target);
                        assert(props.services@.contains(target));
                        return true;
                    }
                    i += 1;
                }
                false
            },
        }
    }
}

/// Whether position `i` holds the first device of `devices`, in report
/// order, that advertises `target`.
pub open spec fn is_first_match(devices: Seq<DiscoveredDevice>, target: u128, i: int) -> bool {
    &&& 0 <= i < devices.len()
    &&& devices[i].advertises(target)
    &&& forall|j: int| 0 <= j < i ==> !#[trigger] devices[j].advertises(target)
}

/// Whether no device of `devices` advertises `target`.
pub open spec fn no_match(devices: Seq<DiscoveredDevice>, target: u128) -> bool {
    forall|j: int| 0 <= j < devices.len() ==> !#[trigger] devices[j].advertises(target)
}

/// The selection for one scan pass: the position of the first device that
/// advertises `target`, or `None` where no device does.
pub open spec fn first_match(devices: Seq<DiscoveredDevice>, target: u128) -> Option<usize> {
    if exists|i: usize| is_first_match(devices, target, i as int) {
        Some(choose|i: usize| is_first_match(devices, target, i as int))
    } else {
        None
    }
}

/// At most one position is the first match.
pub proof fn lemma_first_match_unique(
    devices: Seq<DiscoveredDevice>,
    target: u128,
    a: int,
    b: int,
)
    requires
        is_first_match(devices, target, a),
        is_first_match(devices, target, b),
    ensures
        a == b,
{
    if a < b {
        assert(!devices[a].advertises(target));
    } else if b < a {
        assert(!devices[b].advertises(target));
    }
}

/// A position is selected exactly where some device advertises the target,
/// and it is the first such position.
pub proof fn lemma_first_match(devices: Seq<DiscoveredDevice>, target: u128)
    requires
        devices.len() <= usize::MAX,
    ensures
        first_match(devices, target) is None <==> no_match(devices, target),
        first_match(devices, target) is Some ==> is_first_match(
            devices,
            target,
            first_match(devices, target)->0 as int,
        ),
{
    if !no_match(devices, target) {
        lemma_first_match_exists(devices, target, devices.len() as int);
    } else {
        assert forall|i: usize| !is_first_match(devices, target, i as int) by {
            if 0 <= i < devices.len() {
                assert(!devices[i as int].advertises(target));
            }
        }
    }
}

/// Among the first `n` devices, one that advertises the target has a first.
proof fn lemma_first_match_exists(devices: Seq<DiscoveredDevice>, target: u128, n: int)
    requires
        0 <= n <= devices.len(),
        devices.len() <= usize::MAX,
        exists|k: int| 0 <= k < n && #[trigger] devices[k].advertises(target),
    ensures
        exists|i: usize| is_first_match(devices, target, i as int),
    decreases n,
{
    let last = n - 1;
    if exists|k: int| 0 <= k < last && #[trigger] devices[k].advertises(target) {
        lemma_first_match_exists(devices, target, last);
    } else {
        assert(devices[last].advertises(target));
        assert(is_first_match(devices, target, last as usize as int));
    }
}

/// The selection looks at nothing but which devices advertise the target:
/// two passes that agree on that, device by device, select the same
/// position, whatever the signal strengths and names.
pub proof fn lemma_selection_ignores_signal(
    a: Seq<DiscoveredDevice>,
    b: Seq<DiscoveredDevice>,
    target: u128,
)
    requires
        a.len() == b.len(),
        forall|i: int| 0 <= i < a.len() ==> a[i].advertises(target) == b[i].advertises(target),
    ensures
        first_match(a, target) == first_match(b, target),
{
    assert forall|i: int| is_first_match(a, target, i) == is_first_match(b, target, i) by {
        if is_first_match(a, target, i) {
            assert(is_first_match(b, target, i));
        }
        if is_first_match(b, target, i) {
            assert(is_first_match(a, target, i));
        }
    }
    if first_match(a, target) is Some {
        let x = first_match(a, target)->0;
        let y = first_match(b, target)->0;
        assert(is_first_match(b, target, x as int));
        lemma_first_match_unique(b, target, x as int, y as int);
    } else if first_match(b, target) is Some {
        let y = first_match(b, target)->0;
        assert(is_first_match(a, target, y as int));
    }
}

/// Picks the device to connect to: the first one, in report order, that
/// advertises `target`. Signal strength plays no part, and a pass without
/// such a device gives `None`.
pub fn select_device(devices: &Vec<DiscoveredDevice>, target: u128) -> (chosen: Option<usize>)
    ensures
        chosen == first_match(devices@, target),
        match chosen {
            Some(i) => is_first_match(devices@, target, i as int),
            None => no_match(devices@, target),
        },
{
    let mut i: usize = 0;
    while i < devices.len()
        invariant
            i <= devices@.len(),
            forall|j: int| 0 <= j < i ==> !#[trigger] devices@[j].advertises(target),
        decreases devices@.len() - i,
    {
        if devices[i].has_service(target) {
            proof {
                assert(is_first_match(devices@, target, i as int));
                let c = choose|c: usize| is_first_match(devices@, target, c as int);
                lemma_first_match_unique(devices@, target, i as int, c as int);
            }
            return Some(i);
        }
        i += 1;
    }
    proof {
        assert forall|c: usize| !is_first_match(devices@, target, c as int) by {
            if 0 <= c < devices@.len() {
                assert(!devices@[c as int].advertises(target));
            }
        }
    }
    None
}

} // verus!
