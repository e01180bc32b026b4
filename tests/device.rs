use viewer::device::{find_physical_device, first_usable_family, DeviceCandidate, DeviceKind, QueueFamilyInfo};

fn family(graphics: bool, presents: bool) -> QueueFamilyInfo {
    QueueFamilyInfo { graphics, presents }
}

fn device(kind: DeviceKind, has_extensions: bool, queue_families: Vec<QueueFamilyInfo>) -> DeviceCandidate {
    DeviceCandidate { kind, has_extensions, queue_families }
}

#[test]
fn first_family_that_draws_and_presents() {
    let families = vec![family(false, true), family(true, false), family(true, true), family(true, true)];
    assert_eq!(first_usable_family(&families), Some(2));
    assert_eq!(first_usable_family(&vec![family(true, false)]), None);
}

#[test]
fn discrete_gpu_is_preferred() {
    let devices = vec![
        device(DeviceKind::IntegratedGpu, true, vec![family(true, true)]),
        device(DeviceKind::Other, true, vec![family(true, true)]),
        device(DeviceKind::DiscreteGpu, true, vec![family(false, false), family(true, true)]),
    ];
    assert_eq!(find_physical_device(&devices), Some((2, 1)));
}

#[test]
fn ineligible_devices_are_skipped_and_ties_keep_the_first() {
    let devices = vec![
        device(DeviceKind::DiscreteGpu, false, vec![family(true, true)]),
        device(DeviceKind::DiscreteGpu, true, vec![family(true, false)]),
        device(DeviceKind::IntegratedGpu, true, vec![family(true, true)]),
        device(DeviceKind::IntegratedGpu, true, vec![family(true, true)]),
    ];
    assert_eq!(find_physical_device(&devices), Some((2, 0)));
    assert_eq!(find_physical_device(&devices[..2].to_vec()), None);
    assert_eq!(DeviceKind::Other.rank(), 2);
}
