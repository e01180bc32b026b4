use vstd::prelude::*;

verus! {

/// The kind of a physical device, as far as the choice between devices goes.
#[derive(Clone, Copy, Debug, PartialEq, Eq, Structural)]
pub enum DeviceKind {
    DiscreteGpu,
    IntegratedGpu,
    Other,
}

impl DeviceKind {
    /// Lower is preferred: discrete before integrated before the rest.
    pub open spec fn spec_rank(self) -> u8 {
        match self {
            DeviceKind::DiscreteGpu => 0,
            DeviceKind::IntegratedGpu => 1,
            DeviceKind::Other => 2,
        }
    }

    #[verifier::when_used_as_spec(spec_rank)]
    pub fn rank(self) -> (r: u8)
        ensures
            r == self.spec_rank(),
    {
        match self {
            DeviceKind::DiscreteGpu => 0,
            DeviceKind::IntegratedGpu => 1,
            DeviceKind::Other => 2,
        }
    }
}

/// What the choice of a device reads of one queue family.
#[derive(Clone, Copy, Debug, PartialEq, Eq, Structural)]
pub struct QueueFamilyInfo {
    /// The family supports graphics operations.
    pub graphics: bool,
    /// The family can present to the surface.
    pub presents: bool,
}

/// What the choice of a device reads of one physical device.
#[derive(Clone, Debug)]
pub struct DeviceCandidate {
    pub kind: DeviceKind,
    /// The device supports every device extension that interop needs.
    pub has_extensions: bool,
    pub queue_families: Vec<QueueFamilyInfo>,
}

/// A family that can draw and present.
pub open spec fn usable_family(f: QueueFamilyInfo) -> bool {
    f.graphics && f.presents
}

/// The first usable family of the list is at `i`.
pub open spec fn first_usable_family_at(families: Seq<QueueFamilyInfo>, i: int) -> bool {
    &&& 0 <= i < families.len()
    &&& usable_family(families[i])
    &&& forall|j: int| 0 <= j < i ==> !usable_family(#[trigger] families[j])
}

/// The index of the first queue family that can draw and present.
pub fn first_usable_family(families: &Vec<QueueFamilyInfo>) -> (r: Option<usize>)
    ensures
        r matches Some(i) ==> first_usable_family_at(families@, i as int),
        r is None ==> forall|i: int| 0 <= i < families.len() ==> !usable_family(#[trigger] families[i]),
{
    let mut i: usize = 0;
    while i < families.len()
        invariant
            i <= families.len(),
            forall|j: int| 0 <= j < i ==> !usable_family(#[trigger] families[j]),
        decreases families.len() - i,
    {
        if families[i].graphics && families[i].presents {
            return Some(i);
        }
        i = i + 1;
    }
    None
}

/// A device that interop can run on: it has the extensions and a family
/// that can draw and present.
pub open spec fn eligible(d: DeviceCandidate) -> bool {
    d.has_extensions && exists|i: int| 0 <= i < d.queue_families.len() && usable_family(d.queue_families[i])
}

/// The device at `i` is chosen: it is eligible, no eligible device ranks
/// better, and no eligible device before it ranks as well.
pub open spec fn chosen_at(devices: Seq<DeviceCandidate>, i: int) -> bool {
    &&& 0 <= i < devices.len()
    &&& eligible(devices[i])
    &&& forall|j: int| 0 <= j < devices.len() && eligible(#[trigger] devices[j])
            ==> devices[i].kind.spec_rank() <= devices[j].kind.spec_rank()
    &&& forall|j: int| 0 <= j < i && eligible(#[trigger] devices[j])
            ==> devices[i].kind.spec_rank() < devices[j].kind.spec_rank()
}

/// Chooses among the physical devices: the best ranked eligible device,
/// the first of them on a tie, with the index of its first queue family
/// that can draw and present. `None` where no device is eligible.
pub fn find_physical_device(devices: &Vec<DeviceCandidate>) -> (r: Option<(usize, usize)>)
    ensures
        r matches Some((d, q)) ==> chosen_at(devices@, d as int)
            && first_usable_family_at(devices[d as int].queue_families@, q as int),
        r is None ==> forall|i: int| 0 <= i < devices.len() ==> !eligible(#[trigger] devices[i]),
{
    let mut best: Option<(usize, usize)> = None;
    let mut i: usize = 0;
    while i < devices.len()
        invariant
            i <= devices.len(),
            best matches Some((d, q)) ==> d < i && chosen_at(devices@.take(i as int), d as int)
                && first_usable_family_at(devices[d as int].queue_families@, q as int),
            best is None ==> forall|j: int| 0 <= j < i ==> !eligible(#[trigger] devices[j]),
        decreases devices.len() - i,
    {
        let device = &devices[i];
        if device.has_extensions {
            match first_usable_family(&device.queue_families) {
                Some(q) => {
                    let better = match best {
                        Some((d, _)) => device.kind.rank() < devices[d].kind.rank(),
                        None => true,
                    };
                    if better {
                        best = Some((i, q));
                    }
                },
                None => {},
            }
        }
        proof {
            let next = devices@.take(i + 1);
            assert(forall|j: int| 0 <= j <= i ==> next[j] == devices[j]);
            if let Some((d, q)) = best {
                assert(chosen_at(next, d as int));
            }
        }
        i = i + 1;
    }
    proof {
        assert(devices@.take(devices.len() as int) =~= devices@);
    }
    best
}

} // verus!
