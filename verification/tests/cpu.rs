use host_snapshot::cpu::{name_or_unknown, CpuInfo, INITIAL_USAGE_BITS};

#[test]
fn a_reading_starts_with_the_brand_and_no_load() {
    let cpu = CpuInfo::new(Some(String::from("Example CPU @ 3.00GHz")));
    assert_eq!(cpu.model, "Example CPU @ 3.00GHz");
    assert_eq!(cpu.usage_bits, INITIAL_USAGE_BITS);
    assert_eq!(f32::from_bits(cpu.usage_bits), 0.0);
}

#[test]
fn a_host_without_a_processor_name_is_unknown() {
    let cpu = CpuInfo::new(None);
    assert_eq!(cpu.model, "Unknown");
    assert_eq!(cpu.usage_bits, 0);
}

#[test]
fn a_missing_name_becomes_unknown_and_a_given_one_stays() {
    assert_eq!(name_or_unknown(None), "Unknown");
    assert_eq!(name_or_unknown(Some(String::from("build-host"))), "build-host");
    assert_eq!(name_or_unknown(Some(String::new())), "");
}

#[test]
fn publishing_replaces_the_load_and_keeps_the_brand() {
    let mut cpu = CpuInfo::new(Some(String::from("Example CPU")));
    cpu.publish(12.5f32.to_bits());
    assert_eq!(cpu.usage_bits, 1095237632);
    assert_eq!(cpu.model, "Example CPU");
    cpu.publish(387.25f32.to_bits());
    assert_eq!(cpu.usage_bits, 1136762880);
    assert_eq!(f32::from_bits(cpu.usage_bits), 387.25);
    assert_eq!(cpu.model, "Example CPU");
}

#[test]
fn a_snapshot_is_a_copy_of_the_reading_as_it_stands() {
    let mut cpu = CpuInfo::new(Some(String::from("Example CPU")));
    cpu.publish(100.0f32.to_bits());
    let copy = cpu.snapshot();
    assert_eq!(copy.model, cpu.model);
    assert_eq!(copy.usage_bits, 1120403456);
    cpu.publish(12.5f32.to_bits());
    assert_eq!(copy.usage_bits, 1120403456);
    assert_eq!(cpu.snapshot().usage_bits, 1095237632);
}

#[test]
fn every_read_returns_the_last_value_written_before_it() {
    let written = [0x3f80_0000u32, 0xffff_ffff, 0x0000_0001, 0x4248_0000];
    let mut cpu = CpuInfo::new(None);
    let mut seen = vec![cpu.snapshot().usage_bits];
    for bits in written {
        cpu.publish(bits);
        seen.push(cpu.snapshot().usage_bits);
        seen.push(cpu.snapshot().usage_bits);
    }
    assert_eq!(
        seen,
        vec![
            0,
            0x3f80_0000,
            0x3f80_0000,
            0xffff_ffff,
            0xffff_ffff,
            0x0000_0001,
            0x0000_0001,
            0x4248_0000,
            0x4248_0000
        ]
    );
}
