use gptwrap::geometry::plan;
use gptwrap::partitions::{
    partition_specs, PartitionRole, ESP_PART_GUID, ESP_TYPE_GUID, LINUX_PART_GUID,
    LINUX_TYPE_GUID,
};

#[test]
fn data_only_layout_gives_one_entry() {
    let l = plan(10_485_760, 1024, 512, false).unwrap();
    let specs = partition_specs(&l);
    assert_eq!(specs.len(), 1);
    let d = &specs[0];
    assert_eq!(d.role, PartitionRole::Data);
    assert_eq!(d.name, "linux");
    assert_eq!(d.first_lba, 2_097_152);
    assert_eq!(d.last_lba, 2_117_631);
    assert_eq!(d.size_bytes, 10_485_760);
    assert_eq!(d.type_guid, LINUX_TYPE_GUID);
    assert_eq!(d.part_guid, LINUX_PART_GUID);
}

#[test]
fn esp_layout_gives_esp_then_data() {
    let l = plan(10_485_760, 1024, 512, true).unwrap();
    let specs = partition_specs(&l);
    assert_eq!(specs.len(), 2);
    let e = &specs[0];
    assert_eq!(e.role, PartitionRole::Esp);
    assert_eq!(e.name, "efiesp");
    assert_eq!(e.first_lba, 2_048);
    assert_eq!(e.last_lba, 2_097_151);
    assert_eq!(e.size_bytes, (2_097_151 - 2_048 + 1) * 512);
    assert_eq!(e.type_guid, ESP_TYPE_GUID);
    assert_eq!(e.part_guid, ESP_PART_GUID);
    let d = &specs[1];
    assert_eq!(d.role, PartitionRole::Data);
    assert_eq!(d.first_lba, 2_097_152);
    assert_eq!(d.last_lba, 2_117_631);
    assert_eq!(d.size_bytes, 10_485_760);
}

#[test]
fn entries_do_not_overlap() {
    let l = plan(10_485_760, 1024, 512, true).unwrap();
    let specs = partition_specs(&l);
    assert!(specs[0].last_lba < specs[1].first_lba);
}

#[test]
fn identifiers_are_fixed_across_runs() {
    let l1 = plan(10_485_760, 1024, 512, true).unwrap();
    let l2 = plan(10_485_760, 1024, 512, true).unwrap();
    let s1 = partition_specs(&l1);
    let s2 = partition_specs(&l2);
    assert_eq!(s1, s2);
    // The role identifiers are the specification-mandated constants, not
    // collaborator-generated ones.
    assert_eq!(ESP_TYPE_GUID, 0xc12a7328_f81f_11d2_ba4b_00a0c93ec93b);
    assert_eq!(LINUX_TYPE_GUID, 0x0fc63daf_8483_4772_8e79_3d69d8477de4);
    assert_eq!(ESP_PART_GUID, 0xdd72ae4a_b812_4f7c_b59f_2bc5395d3aab);
    assert_eq!(LINUX_PART_GUID, 0x1f64a68b_eb12_443b_a55e_5aad64c3b432);
}

#[test]
fn esp_entry_size_matches_its_span() {
    let l = plan(10_485_760, 2, 512, true).unwrap();
    let specs = partition_specs(&l);
    let e = &specs[0];
    assert_eq!(e.first_lba, 2_048);
    assert_eq!(e.last_lba, 4_095);
    assert_eq!(e.size_bytes, 2_048 * 512);
}
