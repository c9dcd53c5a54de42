use sliced::error::PolicyError;
use sliced::policy::Policy;
use sliced::props::{get_policy, to_properties, Property};

fn blank(name: &str) -> Policy {
    Policy::empty(String::from(name))
}

#[test]
fn memory_max_only_is_one_entry() {
    let mut p = blank("limit");
    p.memory_max = Some(1 << 30);
    let props = to_properties(&p).unwrap();
    assert_eq!(props.len(), 1);
    assert_eq!(props[0], Property::MemoryMax(1 << 30));
}

#[test]
fn empty_policy_translates_to_nothing() {
    let props = to_properties(&blank("noop")).unwrap();
    assert!(props.is_empty());
}

#[test]
fn absent_fields_are_omitted_not_zeroed() {
    let mut p = blank("cpu");
    p.cpu_weight = Some(500);
    let props = to_properties(&p).unwrap();
    assert_eq!(props, vec![Property::CpuWeight(500)]);
}

#[test]
fn full_policy_field_order() {
    let mut p = blank("full");
    p.cpu_weight = Some(100);
    p.allowed_cpus = Some(vec![0, 2]);
    p.memory_min = Some(1);
    p.memory_low = Some(2);
    p.memory_high = Some(3);
    p.memory_max = Some(4);
    p.memory_swap_max = Some(5);
    p.memory_zswap_max = Some(6);
    p.io_weight = Some(7);
    p.io_device_weight = Some((String::from("/dev/sda"), 8));
    p.io_max = Some(9);
    p.task_max = Some(10);
    let props = to_properties(&p).unwrap();
    assert_eq!(
        props,
        vec![
            Property::CpuWeight(100),
            Property::AllowedCpus(vec![0, 2]),
            Property::MemoryMin(1),
            Property::MemoryLow(2),
            Property::MemoryHigh(3),
            Property::MemoryMax(4),
            Property::MemorySwapMax(5),
            Property::MemoryZswapMax(6),
            Property::IoWeight(7),
            Property::IoDeviceWeight(String::from("/dev/sda"), 8),
            Property::IoMax(9),
            Property::TasksMax(10),
        ]
    );
}

#[test]
fn round_trip_keeps_every_field() {
    let mut p = blank("");
    p.cpu_weight = Some(1);
    p.allowed_cpus = Some(vec![1, 3, 5]);
    p.memory_min = Some(0);
    p.memory_high = Some(7);
    p.io_weight = Some(10000);
    p.io_device_weight = Some((String::from("/dev/nvme0n1"), 1));
    p.task_max = Some(512);
    let props = to_properties(&p).unwrap();
    assert_eq!(get_policy(&props), p);
}

#[test]
fn round_trip_cpu_weight_bounds() {
    for w in [1u16, 2, 9999, 10000] {
        let mut p = blank("");
        p.cpu_weight = Some(w);
        let props = to_properties(&p).unwrap();
        assert_eq!(get_policy(&props).cpu_weight, Some(w));
    }
}

#[test]
fn cpu_weight_zero_rejected() {
    let mut p = blank("bad");
    p.cpu_weight = Some(0);
    assert_eq!(to_properties(&p), Err(PolicyError::CpuWeightOutOfRange));
}

#[test]
fn cpu_weight_too_large_rejected() {
    let mut p = blank("bad");
    p.cpu_weight = Some(10001);
    assert_eq!(to_properties(&p), Err(PolicyError::CpuWeightOutOfRange));
}

#[test]
fn io_weight_out_of_range_rejected() {
    let mut p = blank("bad");
    p.io_weight = Some(0);
    assert_eq!(to_properties(&p), Err(PolicyError::IoWeightOutOfRange));
    p.io_weight = Some(10001);
    assert_eq!(to_properties(&p), Err(PolicyError::IoWeightOutOfRange));
}

#[test]
fn io_device_weight_out_of_range_rejected() {
    let mut p = blank("bad");
    p.io_device_weight = Some((String::from("/dev/sda"), 0));
    assert_eq!(
        to_properties(&p),
        Err(PolicyError::IoDeviceWeightOutOfRange)
    );
}

#[test]
fn task_max_zero_rejected() {
    let mut p = blank("bad");
    p.task_max = Some(0);
    assert_eq!(to_properties(&p), Err(PolicyError::TaskMaxZero));
}

#[test]
fn validation_happens_before_any_entry_is_emitted() {
    let mut p = blank("bad");
    p.memory_max = Some(1);
    p.task_max = Some(0);
    assert_eq!(to_properties(&p), Err(PolicyError::TaskMaxZero));
}

#[test]
fn wire_names_are_exact() {
    assert_eq!(Property::CpuWeight(1).wire_name(), "CPUWeight");
    assert_eq!(Property::AllowedCpus(vec![]).wire_name(), "AllowedCPUs");
    assert_eq!(Property::MemoryMin(1).wire_name(), "MemoryMin");
    assert_eq!(Property::MemoryLow(1).wire_name(), "MemoryLow");
    assert_eq!(Property::MemoryHigh(1).wire_name(), "MemoryHigh");
    assert_eq!(Property::MemoryMax(1).wire_name(), "MemoryMax");
    assert_eq!(Property::MemorySwapMax(1).wire_name(), "MemorySwapMax");
    assert_eq!(Property::MemoryZswapMax(1).wire_name(), "MemoryZSwapMax");
    assert_eq!(Property::IoWeight(1).wire_name(), "IOWeight");
    assert_eq!(
        Property::IoDeviceWeight(String::new(), 1).wire_name(),
        "IODeviceWeight"
    );
    assert_eq!(Property::IoMax(1).wire_name(), "IOReadBandwidthMax");
    assert_eq!(Property::TasksMax(1).wire_name(), "TasksMax");
    assert_eq!(Property::Slice(String::new()).wire_name(), "Slice");
}

#[test]
fn read_back_last_write_wins() {
    let props = vec![Property::CpuWeight(100), Property::CpuWeight(200)];
    assert_eq!(get_policy(&props).cpu_weight, Some(200));
}

#[test]
fn read_back_ignores_illegible_values() {
    let props = vec![
        Property::CpuWeight(20000),
        Property::TasksMax(0),
        Property::Slice(String::from("user.slice")),
    ];
    let p = get_policy(&props);
    assert_eq!(p.cpu_weight, None);
    assert_eq!(p.task_max, None);
    assert_eq!(p, Policy::empty(String::new()));
}

#[test]
fn read_back_label_is_empty() {
    let mut p = blank("labelled");
    p.memory_low = Some(9);
    let props = to_properties(&p).unwrap();
    assert_eq!(get_policy(&props).name, "");
}

#[test]
fn repeated_application_reads_back_identically() {
    let mut p = blank("twice");
    p.cpu_weight = Some(77);
    p.memory_max = Some(4096);
    let first = to_properties(&p).unwrap();
    let second = to_properties(&p).unwrap();
    assert_eq!(first, second);
    assert_eq!(get_policy(&first), get_policy(&second));
}
