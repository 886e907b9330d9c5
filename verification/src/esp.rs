//! ESP formatting dispatcher: hands a bounded view over exactly the ESP's
//! byte range to the filesystem-formatting collaborator, configured for
//! FAT32 with a fixed volume label and the layout's sector size. It runs
//! after the table is committed and flushes before returning, so the copy
//! step never touches an incompletely formatted region.

use crate::geometry::DiskLayout;
use crate::table::{table_entries, table_slots, GptVolume};
use vstd::prelude::*;

verus! {

/// Why formatting the ESP failed.
#[derive(Debug)]
pub enum FormatError {
    /// The logical block size exceeds the sector width the formatting
    /// collaborator can express.
    SectorSize { got: u64 },
    /// The formatting collaborator itself reported an error.
    Format(String),
}

/// Relies on fscommon's `StreamSlice::new` and `BufStream` and on fatfs's
/// `format_volume`: builds a bounded, buffered view over exactly
/// `[start_byte, end_byte)` of the volume's file, formats it as FAT32 with
/// the given label and sector size, and flushes. The entry mapping is not
/// touched.
#[verifier::external_body]
fn format_fat32_range(
    v: &mut GptVolume,
    start_byte: u64,
    end_byte: u64,
    sector_size: u16,
    label: [u8; 11],
) -> (r: Result<(), String>)
    requires
        start_byte <= end_byte,
        sector_size == 512 || sector_size == 4096,
    ensures
        table_entries(*final(v)) == table_entries(*old(v)),
        table_slots(*final(v)) == table_slots(*old(v)),
{
    let device = v.disk.device_mut();
    let slice = fscommon::StreamSlice::new(device, start_byte, end_byte).map_err(
        |e| format!("{e}"),
    )?;
    let mut buffered = fscommon::BufStream::new(slice);
    let options = fatfs::FormatVolumeOptions::new().fat_type(fatfs::FatType::Fat32).volume_label(
        label,
    ).bytes_per_sector(sector_size);
    fatfs::format_volume(&mut buffered, options).map_err(|e| format!("{e}"))?;
    std::io::Write::flush(&mut buffered).map_err(|e| format!("{e}"))
}

/// Format the layout's ESP region as FAT32, labelled `EFI SYSTEM`. The
/// sector-size guard mirrors the formatter's width limit; for the two
/// valid block sizes it never trips, so a failure here is always the
/// collaborator's own.
pub fn format_esp_partition(v: &mut GptVolume, layout: &DiskLayout) -> (r: Result<
    (),
    FormatError,
>)
    requires
        layout.wf(),
        layout.esp is Some,
    ensures
        table_entries(*final(v)) == table_entries(*old(v)),
        table_slots(*final(v)) == table_slots(*old(v)),
        !(r matches Err(FormatError::SectorSize { got: _ })),
{
    if layout.block_size > 65535 {
        return Err(FormatError::SectorSize { got: layout.block_size });
    }
    let (start_byte, end_byte) = layout.esp_byte_range();
    let sector_size: u16 = layout.block_size as u16;
    // The label bytes spell "EFI SYSTEM ", padded to the 11-byte field.
    let label: [u8; 11] = [69, 70, 73, 32, 83, 89, 83, 84, 69, 77, 32];
    match format_fat32_range(v, start_byte, end_byte, sector_size, label) {
        Ok(_) => Ok(()),
        Err(t) => Err(FormatError::Format(t)),
    }
}

} // verus!
