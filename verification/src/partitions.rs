//! Partition roles and the specification-mandated identifiers. Both roles
//! carry fixed type identifiers and fixed partition identifiers, so that a
//! regenerated image keeps the same identifiers and boot configuration that
//! mounts by partition identifier stays valid.

use crate::geometry::DiskLayout;
use vstd::arithmetic::mul::lemma_mul_inequality;
use vstd::prelude::*;

verus! {

/// EFI system partition type identifier (the standard ESP type GUID).
pub const ESP_TYPE_GUID: u128 = 0xc12a7328_f81f_11d2_ba4b_00a0c93ec93b;

/// Generic Linux filesystem data type identifier.
pub const LINUX_TYPE_GUID: u128 = 0x0fc63daf_8483_4772_8e79_3d69d8477de4;

/// Fixed partition identifier for the ESP role.
pub const ESP_PART_GUID: u128 = 0xdd72ae4a_b812_4f7c_b59f_2bc5395d3aab;

/// Fixed partition identifier for the data role.
pub const LINUX_PART_GUID: u128 = 0x1f64a68b_eb12_443b_a55e_5aad64c3b432;

/// Label of the ESP entry.
pub const ESP_NAME: &'static str = "efiesp";

/// Label of the data entry.
pub const LINUX_NAME: &'static str = "linux";

#[derive(Clone, Copy, Debug, PartialEq, Eq, Structural)]
pub enum PartitionRole {
    Esp,
    Data,
}

/// One partition table entry as the planner dictates it: exact inclusive
/// sector bounds and fixed identifiers. `size_bytes` is the capacity the
/// table collaborator is asked to reserve for the entry.
#[derive(Clone, Copy, Debug, PartialEq, Eq)]
pub struct PartitionSpec {
    pub role: PartitionRole,
    pub name: &'static str,
    pub first_lba: u64,
    pub last_lba: u64,
    pub size_bytes: u64,
    pub type_guid: u128,
    pub part_guid: u128,
}

/// The data entry a layout dictates.
pub open spec fn data_spec_of(l: DiskLayout) -> PartitionSpec {
    PartitionSpec {
        role: PartitionRole::Data,
        name: LINUX_NAME,
        first_lba: l.padding_sectors,
        last_lba: (l.padding_sectors + l.data_sectors - 1) as u64,
        size_bytes: l.input_len,
        type_guid: LINUX_TYPE_GUID,
        part_guid: LINUX_PART_GUID,
    }
}

/// The ESP entry a layout with an ESP dictates.
pub open spec fn esp_spec_of(l: DiskLayout) -> PartitionSpec
    recommends
        l.esp is Some,
{
    PartitionSpec {
        role: PartitionRole::Esp,
        name: ESP_NAME,
        first_lba: l.esp->Some_0.start,
        last_lba: l.esp->Some_0.end,
        size_bytes: ((l.esp->Some_0.end - l.esp->Some_0.start + 1) * l.block_size) as u64,
        type_guid: ESP_TYPE_GUID,
        part_guid: ESP_PART_GUID,
    }
}

/// An ESP entry asks the collaborator for at least one byte (in fact at
/// least two sectors), and its byte size fits the machine word because the
/// whole image does.
pub proof fn lemma_esp_spec_size(l: DiskLayout)
    requires
        l.wf(),
        l.esp is Some,
    ensures
        esp_spec_of(l).size_bytes >= 1,
        esp_spec_of(l).size_bytes == (l.esp->Some_0.end - l.esp->Some_0.start + 1)
            * l.block_size,
{
    let s = l.esp->Some_0.start as int;
    let e = l.esp->Some_0.end as int;
    let bs = l.block_size as int;
    let sz = (e - s + 1) * bs;
    assert(1024 <= sz) by (nonlinear_arith)
        requires
            e - s + 1 >= 2,
            bs >= 512,
            sz == (e - s + 1) * bs,
    ;
    lemma_mul_inequality(e - s + 1, l.total_sectors as int, bs);
}

/// The full entry list a layout dictates: the ESP first when present, then
/// the data entry.
pub open spec fn specs_of(l: DiskLayout) -> Seq<PartitionSpec> {
    if l.esp is Some {
        seq![esp_spec_of(l), data_spec_of(l)]
    } else {
        seq![data_spec_of(l)]
    }
}

/// Derive the partition entries from a validated layout. The result is a
/// function of the layout alone: positions, bounds and identifiers are all
/// dictated, none is left to the table collaborator.
pub fn partition_specs(l: &DiskLayout) -> (v: Vec<PartitionSpec>)
    requires
        l.wf(),
    ensures
        v@ == specs_of(*l),
        v@.len() == if l.esp is Some { 2int } else { 1int },
{
    let mut v: Vec<PartitionSpec> = Vec::new();
    if let Some(span) = l.esp {
        let (esp_byte_start, esp_byte_end) = l.esp_byte_range();
        proof {
            assert((span.end - span.start + 1) * l.block_size == esp_byte_end
                - esp_byte_start) by (nonlinear_arith)
                requires
                    esp_byte_start == span.start * l.block_size,
                    esp_byte_end == (span.end + 1) * l.block_size,
            ;
        }
        v.push(PartitionSpec {
            role: PartitionRole::Esp,
            name: ESP_NAME,
            first_lba: span.start,
            last_lba: span.end,
            size_bytes: esp_byte_end - esp_byte_start,
            type_guid: ESP_TYPE_GUID,
            part_guid: ESP_PART_GUID,
        });
    }
    v.push(PartitionSpec {
        role: PartitionRole::Data,
        name: LINUX_NAME,
        first_lba: l.padding_sectors,
        last_lba: l.padding_sectors + l.data_sectors - 1,
        size_bytes: l.input_len,
        type_guid: LINUX_TYPE_GUID,
        part_guid: LINUX_PART_GUID,
    });
    proof {
        assert(v@ =~= specs_of(*l));
    }
    v
}

} // verus!
