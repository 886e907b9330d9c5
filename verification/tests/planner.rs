use gptwrap::geometry::{plan, DiskLayout, GeometryError, SectorSpan, MIN_ESP_PAD_MIB};

fn plan_ok(input_len: u64, pad_mib: u64, block_size: u64, want_esp: bool) -> DiskLayout {
    plan(input_len, pad_mib, block_size, want_esp).expect("plan should succeed")
}

#[test]
fn ten_mib_image_with_gib_padding() {
    let l = plan_ok(10_485_760, 1024, 512, false);
    assert_eq!(l.block_size, 512);
    assert_eq!(l.input_len, 10_485_760);
    assert_eq!(l.data_sectors, 20_480);
    assert_eq!(l.padding_sectors, 2_097_152);
    assert_eq!(l.footer_sectors, 2_048);
    assert_eq!(l.total_sectors, 2_119_680);
    assert_eq!(l.total_bytes, 2_119_680 * 512);
    assert_eq!(l.esp, None);
}

#[test]
fn esp_occupies_padding_after_alignment_boundary() {
    let l = plan_ok(10_485_760, 1024, 512, true);
    assert_eq!(l.esp, Some(SectorSpan { start: 2_048, end: 2_097_151 }));
    // The data region is unchanged in length and position.
    assert_eq!(l.data_sectors, 20_480);
    assert_eq!(l.padding_sectors, 2_097_152);
}

#[test]
fn one_mib_padding_cannot_hold_esp() {
    let r = plan(10_485_760, 1, 512, true);
    assert_eq!(
        r,
        Err(GeometryError::InsufficientPadding { min_pad_mib: MIN_ESP_PAD_MIB })
    );
}

#[test]
fn zero_padding_cannot_hold_esp() {
    let r = plan(10_485_760, 0, 512, true);
    assert_eq!(r, Err(GeometryError::InsufficientPadding { min_pad_mib: 2 }));
}

#[test]
fn two_mib_padding_is_enough_for_esp() {
    let l = plan_ok(10_485_760, 2, 512, true);
    assert_eq!(l.esp, Some(SectorSpan { start: 2_048, end: 4_095 }));
}

#[test]
fn unaligned_image_rounds_up_one_sector() {
    let aligned = plan_ok(10_485_760, 1024, 512, false);
    let unaligned = plan_ok(10_485_761, 1024, 512, false);
    assert_eq!(unaligned.data_sectors, aligned.data_sectors + 1);
    assert_eq!(unaligned.total_sectors, aligned.total_sectors + 1);
}

#[test]
fn rejects_other_block_sizes() {
    assert_eq!(
        plan(10_485_760, 1024, 1024, false),
        Err(GeometryError::InvalidBlockSize { got: 1024 })
    );
    assert_eq!(
        plan(10_485_760, 1024, 0, true),
        Err(GeometryError::InvalidBlockSize { got: 0 })
    );
}

#[test]
fn four_kib_sectors() {
    let l = plan_ok(10_485_760, 1024, 4096, true);
    assert_eq!(l.data_sectors, 2_560);
    assert_eq!(l.padding_sectors, 262_144);
    assert_eq!(l.footer_sectors, 256);
    assert_eq!(l.total_sectors, 262_144 + 2_560 + 256);
    assert_eq!(l.esp, Some(SectorSpan { start: 256, end: 262_143 }));
}

#[test]
fn total_bytes_is_total_sectors_times_block_size() {
    for &(len, pad, bs, esp) in &[
        (1u64, 0u64, 512u64, false),
        (511, 3, 512, false),
        (512, 3, 512, true),
        (10_485_761, 1024, 4096, false),
        (123_456_789, 7, 4096, true),
    ] {
        if let Ok(l) = plan(len, pad, bs, esp) {
            assert_eq!(l.total_bytes, l.total_sectors * l.block_size);
            assert_eq!(
                l.total_sectors,
                l.padding_sectors + l.data_sectors + l.footer_sectors
            );
        }
    }
}

#[test]
fn data_sectors_is_exact_ceiling() {
    for &(len, bs) in &[
        (1u64, 512u64),
        (511, 512),
        (512, 512),
        (513, 512),
        (10_485_760, 512),
        (10_485_761, 512),
        (4095, 4096),
        (4097, 4096),
    ] {
        let l = plan_ok(len, 4, bs, false);
        assert!(l.data_sectors * bs >= len);
        assert!((l.data_sectors - 1) * bs < len);
    }
}

#[test]
fn esp_never_reaches_data_region() {
    for &(pad, bs) in &[(2u64, 512u64), (3, 512), (1024, 512), (2, 4096), (1024, 4096)] {
        let l = plan_ok(10_485_760, pad, bs, true);
        let span = l.esp.expect("esp requested");
        assert!(span.start < span.end);
        assert_eq!(span.end + 1, l.padding_sectors);
        assert!(span.end < l.padding_sectors);
    }
}

#[test]
fn byte_offsets_follow_the_map() {
    let l = plan_ok(10_485_760, 1024, 512, true);
    assert_eq!(l.data_start_bytes(), 2_097_152 * 512);
    let (esp_start, esp_end) = l.esp_byte_range();
    assert_eq!(esp_start, 2_048 * 512);
    assert_eq!(esp_end, 2_097_152 * 512);
}

#[test]
fn planning_twice_gives_identical_maps() {
    let a = plan_ok(10_485_761, 37, 4096, true);
    let b = plan_ok(10_485_761, 37, 4096, true);
    assert_eq!(a, b);
}
