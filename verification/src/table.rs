//! Partition table builder. The table collaborator (the `gpt` crate) owns
//! the on-disk encoding, headers and checksums; this module drives it in
//! two phases: first reserve an entry of the asked size, then read the
//! entry mapping back and dictate the exact sector bounds and identifiers
//! the planner chose, then write the mapping and commit. The collaborator's
//! own size-based placement is never trusted for final offsets.
//!
//! The collaborator state is held behind `GptVolume`; what Verus knows of
//! it is the entry mapping `table_entries` (index to entry data) and the
//! entry capacity `table_slots`, stated by the trusted wrappers below.

use crate::geometry::DiskLayout;
use crate::partitions::{
    data_spec_of, esp_spec_of, partition_specs, PartitionSpec, ESP_TYPE_GUID, LINUX_TYPE_GUID,
};
use std::collections::BTreeMap;
use vstd::prelude::*;

verus! {

/// What one table entry holds, as plain values: first sector, last sector
/// (inclusive), partition identifier, type identifier, and label.
pub type EntryData = (u64, u64, u128, u128, Seq<char>);

/// An open partition table over the output file, held by the collaborator.
#[verifier::external_body]
pub struct GptVolume {
    pub(crate) disk: gpt::GptDisk<Box<dyn gpt::DiskDevice>>,
}

/// A snapshot of the collaborator's entry mapping, taken to be edited and
/// written back.
#[verifier::external_body]
pub struct EntryMap {
    pub(crate) map: BTreeMap<u32, gpt::partition::Partition>,
}

/// The entry mapping a volume currently holds.
pub uninterp spec fn table_entries(v: GptVolume) -> Map<u32, EntryData>;

/// How many entries the volume's header has room for.
pub uninterp spec fn table_slots(v: GptVolume) -> u32;

/// The entry mapping a snapshot holds.
pub uninterp spec fn entry_map_entries(m: EntryMap) -> Map<u32, EntryData>;

/// Every entry in the mapping is in use: its type identifier is not the
/// all-zero unused marker.
pub open spec fn all_used(m: Map<u32, EntryData>) -> bool {
    forall|k: u32| m.dom().contains(k) ==> (#[trigger] m[k]).3 != 0
}

/// Relies on gpt's `GptConfig::create` and `create_from_device`: opens the
/// existing file at `path` writable and builds a fresh table state over it,
/// with default headers, no entries, and room for 128 entries. Nothing is
/// written until the table is committed.
#[verifier::external_body]
pub fn create_volume(path: &str, block_size: u64) -> (r: Result<GptVolume, String>)
    requires
        block_size == 512 || block_size == 4096,
    ensures
        match r {
            Ok(v) => table_entries(v) == Map::<u32, EntryData>::empty() && table_slots(v)
                == 128,
            Err(_) => true,
        },
{
    let lb = match gpt::disk::LogicalBlockSize::try_from(block_size) {
        Ok(lb) => lb,
        Err(e) => return Err(format!("{e}")),
    };
    let cfg = gpt::GptConfig::new().writable(true).logical_block_size(lb);
    let opened = match cfg.clone().create(path) {
        Ok(d) => d,
        Err(e) => return Err(format!("{e}")),
    };
    let device: Box<dyn gpt::DiskDevice> = Box::new(opened.take_device());
    match cfg.create_from_device(device, None) {
        Ok(disk) => Ok(GptVolume { disk }),
        Err(e) => Err(format!("{e}")),
    }
}

/// Relies on gpt's `GptDisk::add_partition`: reserves a fresh entry of the
/// asked size with the EFI system partition type identifier and the given
/// label. The collaborator picks the entry index (the lowest free one, as
/// long as the table is not full), provisional sector bounds, and a random
/// provisional partition identifier; on failure the mapping is unchanged.
#[verifier::external_body]
pub(crate) fn add_esp_entry(v: &mut GptVolume, name: &str, size_bytes: u64) -> (r: Result<
    u32,
    String,
>)
    requires
        size_bytes >= 1,
    ensures
        table_slots(*final(v)) == table_slots(*old(v)),
        r matches Ok(id) ==> ({
            &&& 1 <= id
            &&& exists|f: u64, lst: u64, g: u128|
                table_entries(*final(v)) == table_entries(*old(v)).insert(
                    id,
                    (f, lst, g, ESP_TYPE_GUID, name@),
                )
            &&& (all_used(table_entries(*old(v))) && table_entries(*old(v)).dom().len()
                < table_slots(*old(v)) ==> !table_entries(*old(v)).dom().contains(id) && (
            forall|j: u32| 1 <= j < id ==> table_entries(*old(v)).dom().contains(j)))
        }),
        r matches Err(_) ==> table_entries(*final(v)) == table_entries(*old(v)),
{
    v.disk.add_partition(name, size_bytes, gpt::partition_types::EFI, 0, None).map_err(
        |e| format!("{e}"),
    )
}

/// Relies on gpt's `GptDisk::add_partition`, as `add_esp_entry`, but with
/// the Linux filesystem data type identifier.
#[verifier::external_body]
pub(crate) fn add_data_entry(v: &mut GptVolume, name: &str, size_bytes: u64) -> (r: Result<
    u32,
    String,
>)
    requires
        size_bytes >= 1,
    ensures
        table_slots(*final(v)) == table_slots(*old(v)),
        r matches Ok(id) ==> ({
            &&& 1 <= id
            &&& exists|f: u64, lst: u64, g: u128|
                table_entries(*final(v)) == table_entries(*old(v)).insert(
                    id,
                    (f, lst, g, LINUX_TYPE_GUID, name@),
                )
            &&& (all_used(table_entries(*old(v))) && table_entries(*old(v)).dom().len()
                < table_slots(*old(v)) ==> !table_entries(*old(v)).dom().contains(id) && (
            forall|j: u32| 1 <= j < id ==> table_entries(*old(v)).dom().contains(j)))
        }),
        r matches Err(_) ==> table_entries(*final(v)) == table_entries(*old(v)),
{
    v.disk.add_partition(name, size_bytes, gpt::partition_types::LINUX_FS, 0, None).map_err(
        |e| format!("{e}"),
    )
}

/// Relies on gpt's `GptDisk::partitions`: a copy of the current entry
/// mapping.
#[verifier::external_body]
pub(crate) fn read_entries(v: &GptVolume) -> (m: EntryMap)
    ensures
        entry_map_entries(m) == table_entries(*v),
{
    EntryMap { map: v.disk.partitions().clone() }
}

/// Relies on the mapping being a `BTreeMap` keyed by entry index and on
/// uuid's `Uuid::from_u128`: overwrites one entry's sector bounds and
/// partition identifier in place, leaving its type and label alone. Returns
/// whether the entry exists.
#[verifier::external_body]
pub(crate) fn set_entry_placement(
    m: &mut EntryMap,
    id: u32,
    first_lba: u64,
    last_lba: u64,
    part_guid: u128,
) -> (found: bool)
    ensures
        found == entry_map_entries(*old(m)).dom().contains(id),
        found ==> entry_map_entries(*final(m)) == entry_map_entries(*old(m)).insert(
            id,
            (
                first_lba,
                last_lba,
                part_guid,
                entry_map_entries(*old(m))[id].3,
                entry_map_entries(*old(m))[id].4,
            ),
        ),
        !found ==> entry_map_entries(*final(m)) == entry_map_entries(*old(m)),
{
    match m.map.get_mut(&id) {
        Some(p) => {
            p.first_lba = first_lba;
            p.last_lba = last_lba;
            p.part_guid = uuid::Uuid::from_u128(part_guid);
            true
        },
        None => false,
    }
}

/// Relies on gpt's `GptDisk::update_partitions`: replaces the volume's
/// entry mapping with the snapshot. Entry index zero never exists, and the
/// collaborator refuses a mapping holding it outright.
#[verifier::external_body]
pub(crate) fn write_entries(v: &mut GptVolume, m: EntryMap) -> (r: Result<(), String>)
    requires
        !entry_map_entries(m).dom().contains(0u32),
    ensures
        table_slots(*final(v)) == table_slots(*old(v)),
        r matches Ok(_) ==> table_entries(*final(v)) == entry_map_entries(m),
{
    v.disk.update_partitions(m.map).map_err(|e| format!("{e}"))
}

/// Relies on gpt's `GptDisk::write_inplace`: writes the primary and backup
/// headers and the entry arrays to the file and flushes them. The entry
/// mapping itself is left as it is, whether or not the write succeeds.
#[verifier::external_body]
pub(crate) fn commit(v: &mut GptVolume) -> (r: Result<(), String>)
    ensures
        table_entries(*final(v)) == table_entries(*old(v)),
        table_slots(*final(v)) == table_slots(*old(v)),
{
    v.disk.write_inplace().map_err(|e| format!("{e}"))
}

/// Which table-building step failed, with the collaborator's own words.
#[derive(Debug)]
pub enum TableError {
    /// Reserving an entry failed.
    AddEntry(String),
    /// An entry the procedure just reserved was not in the mapping.
    MissingEntry(u32),
    /// Writing the corrected mapping back was refused.
    WriteBack(String),
    /// Committing the table to storage failed.
    Commit(String),
}

/// What one entry dictated by the planner looks like in the mapping.
pub open spec fn entry_of(s: PartitionSpec) -> EntryData {
    (s.first_lba, s.last_lba, s.part_guid, s.type_guid, s.name@)
}

/// The exact entry mapping a committed table must hold for a layout: the
/// ESP (when present) at index 1 and the data entry after it, or the data
/// entry alone at index 1.
pub open spec fn expected_entries(l: DiskLayout) -> Map<u32, EntryData> {
    if l.esp is Some {
        Map::<u32, EntryData>::empty().insert(1u32, entry_of(esp_spec_of(l))).insert(
            2u32,
            entry_of(data_spec_of(l)),
        )
    } else {
        Map::<u32, EntryData>::empty().insert(1u32, entry_of(data_spec_of(l)))
    }
}

/// Commit the planner's sector map into the table: reserve the entries in
/// role order, then dictate their exact bounds and fixed identifiers over
/// whatever placement the collaborator chose, write the mapping back, and
/// commit. On success the volume holds exactly the dictated entries.
pub fn build_table(v: &mut GptVolume, layout: &DiskLayout) -> (r: Result<(), TableError>)
    requires
        layout.wf(),
        table_entries(*old(v)) == Map::<u32, EntryData>::empty(),
        table_slots(*old(v)) == 128,
    ensures
        r matches Ok(_) ==> table_entries(*final(v)) == expected_entries(*layout),
        r matches Err(TableError::MissingEntry(_)) ==> false,
{
    let specs = partition_specs(layout);
    proof {
        assert(table_entries(*v).dom() =~= Set::<u32>::empty());
        if layout.esp is Some {
            crate::partitions::lemma_esp_spec_size(*layout);
        }
    }
    if specs.len() == 2 {
        let first_id = match add_esp_entry(v, specs[0].name, specs[0].size_bytes) {
            Ok(id) => id,
            Err(t) => return Err(TableError::AddEntry(t)),
        };
        let ghost m1 = table_entries(*v);
        proof {
            lemma_first_free_is_one(table_entries(*old(v)), first_id);
            let (f, lst, g) = choose|f: u64, lst: u64, g: u128|
                m1 == table_entries(*old(v)).insert(
                    1u32,
                    (f, lst, g, ESP_TYPE_GUID, specs@[0].name@),
                );
            assert(m1.dom() =~= Set::<u32>::empty().insert(1u32));
            assert(m1.dom().len() == 1);
            assert(m1[1u32].3 == ESP_TYPE_GUID);
            assert(m1[1u32].4 == specs@[0].name@);
        }
        let second_id = match add_data_entry(v, specs[1].name, specs[1].size_bytes) {
            Ok(id) => id,
            Err(t) => return Err(TableError::AddEntry(t)),
        };
        let ghost m2 = table_entries(*v);
        proof {
            lemma_second_free_is_two(m1, second_id);
            let (f, lst, g) = choose|f: u64, lst: u64, g: u128|
                m2 == m1.insert(2u32, (f, lst, g, LINUX_TYPE_GUID, specs@[1].name@));
            assert(m2[1u32] == m1[1u32]);
            assert(m2[2u32].3 == LINUX_TYPE_GUID);
            assert(m2[2u32].4 == specs@[1].name@);
            assert(m2.dom() =~= Set::<u32>::empty().insert(1u32).insert(2u32));
        }
        let mut m = read_entries(v);
        let found_first = set_entry_placement(
            &mut m,
            1,
            specs[0].first_lba,
            specs[0].last_lba,
            specs[0].part_guid,
        );
        if !found_first {
            return Err(TableError::MissingEntry(1));
        }
        let found_second = set_entry_placement(
            &mut m,
            2,
            specs[1].first_lba,
            specs[1].last_lba,
            specs[1].part_guid,
        );
        if !found_second {
            return Err(TableError::MissingEntry(2));
        }
        proof {
            assert(entry_map_entries(m) =~= expected_entries(*layout));
        }
        match write_entries(v, m) {
            Ok(_) => {},
            Err(t) => return Err(TableError::WriteBack(t)),
        }
        match commit(v) {
            Ok(_) => Ok(()),
            Err(t) => Err(TableError::Commit(t)),
        }
    } else {
        let only_id = match add_data_entry(v, specs[0].name, specs[0].size_bytes) {
            Ok(id) => id,
            Err(t) => return Err(TableError::AddEntry(t)),
        };
        let ghost m1 = table_entries(*v);
        proof {
            lemma_first_free_is_one(table_entries(*old(v)), only_id);
            let (f, lst, g) = choose|f: u64, lst: u64, g: u128|
                m1 == table_entries(*old(v)).insert(
                    1u32,
                    (f, lst, g, LINUX_TYPE_GUID, specs@[0].name@),
                );
            assert(m1.dom() =~= Set::<u32>::empty().insert(1u32));
            assert(m1[1u32].3 == LINUX_TYPE_GUID);
            assert(m1[1u32].4 == specs@[0].name@);
        }
        let mut m = read_entries(v);
        let found = set_entry_placement(
            &mut m,
            1,
            specs[0].first_lba,
            specs[0].last_lba,
            specs[0].part_guid,
        );
        if !found {
            return Err(TableError::MissingEntry(1));
        }
        proof {
            assert(entry_map_entries(m) =~= expected_entries(*layout));
        }
        match write_entries(v, m) {
            Ok(_) => {},
            Err(t) => return Err(TableError::WriteBack(t)),
        }
        match commit(v) {
            Ok(_) => Ok(()),
            Err(t) => Err(TableError::Commit(t)),
        }
    }
}

/// Running the procedure twice with identical inputs dictates identical
/// results: the sector maps two successful plans return are equal, and so
/// are the table entry mappings committed from them — bounds, labels, type
/// identifiers and partition identifiers alike. The one field outside this
/// statement is the disk's own identifier, which the collaborator draws
/// afresh per run.
pub proof fn lemma_procedure_deterministic(
    input_len: u64,
    pad_mib: u64,
    block_size: u64,
    want_esp: bool,
    l1: DiskLayout,
    l2: DiskLayout,
)
    requires
        l1 == crate::geometry::layout_spec(input_len, pad_mib, block_size, want_esp),
        l2 == crate::geometry::layout_spec(input_len, pad_mib, block_size, want_esp),
    ensures
        l1 == l2,
        expected_entries(l1) == expected_entries(l2),
{
}

/// In an empty table the lowest free index is 1.
proof fn lemma_first_free_is_one(m: Map<u32, EntryData>, id: u32)
    requires
        m == Map::<u32, EntryData>::empty(),
        1 <= id,
        m.dom().len() < 128 && all_used(m) ==> !m.dom().contains(id) && (forall|j: u32|
            1 <= j < id ==> m.dom().contains(j)),
    ensures
        id == 1,
{
    assert(m.dom() =~= Set::<u32>::empty());
    assert(m.dom().len() == 0);
    assert(all_used(m));
    if id != 1 {
        assert(m.dom().contains(1u32));
        assert(false);
    }
}

/// In a table holding one used entry at index 1, the lowest free index is 2.
proof fn lemma_second_free_is_two(m: Map<u32, EntryData>, id: u32)
    requires
        m.dom() == Set::<u32>::empty().insert(1u32),
        m[1u32].3 != 0,
        1 <= id,
        m.dom().len() < 128 && all_used(m) ==> !m.dom().contains(id) && (forall|j: u32|
            1 <= j < id ==> m.dom().contains(j)),
    ensures
        id == 2,
{
    assert(m.dom().len() == 1);
    assert(all_used(m)) by {
        assert(forall|k: u32| m.dom().contains(k) ==> k == 1);
    }
    assert(!m.dom().contains(id));
    if id == 1 {
        assert(false);
    }
    if id > 2 {
        assert(m.dom().contains(2u32));
        assert(false);
    }
}

} // verus!
