//! Geometry planner: pure arithmetic that turns the input image length, the
//! requested padding, the logical block size and the ESP flag into an exact
//! sector map, or a descriptive error. No I/O happens here; every failure is
//! pre-flight.

use vstd::arithmetic::div_mod::{
    lemma_div_nonincreasing, lemma_div_plus_one, lemma_div_pos_is_pos, lemma_fundamental_div_mod,
};
use vstd::arithmetic::mul::lemma_mul_inequality;
use vstd::prelude::*;

verus! {

/// One mebibyte, in bytes.
pub const MIB: u64 = 1048576;

/// The logical block sizes the planner accepts.
pub open spec fn valid_block_size(bs: u64) -> bool {
    bs == 512 || bs == 4096
}

/// Ceiling division on mathematical integers.
pub open spec fn ceil_div(a: int, b: int) -> int
    recommends
        a >= 0,
        b >= 1,
{
    (a + b - 1) / b
}

/// Sectors of padding in front of the data region: the requested padding in
/// bytes, truncated to whole sectors.
pub open spec fn padding_sectors_spec(pad_mib: u64, bs: u64) -> int {
    (pad_mib * 1048576) / (bs as int)
}

/// Sectors the data region needs: the image length rounded up to sectors.
pub open spec fn data_sectors_spec(input_len: u64, bs: u64) -> int {
    ceil_div(input_len as int, bs as int)
}

/// Sectors reserved at the tail for the backup table and a safety margin.
pub open spec fn footer_sectors_spec(bs: u64) -> int {
    1048576int / (bs as int)
}

pub open spec fn total_sectors_spec(input_len: u64, pad_mib: u64, bs: u64) -> int {
    padding_sectors_spec(pad_mib, bs) + data_sectors_spec(input_len, bs)
        + footer_sectors_spec(bs)
}

/// First sector of an ESP: the 1 MiB alignment boundary.
pub open spec fn esp_start_spec(bs: u64) -> int {
    1048576int / (bs as int)
}

/// Whether the padding leaves room for an ESP whose start is strictly below
/// its end, between the alignment boundary and the data region.
pub open spec fn esp_fits(pad_mib: u64, bs: u64) -> bool {
    padding_sectors_spec(pad_mib, bs) >= esp_start_spec(bs) + 2
}

/// The least padding, in MiB, that fits an ESP for either block size.
pub const MIN_ESP_PAD_MIB: u64 = 2;

/// A contiguous run of sectors. Both bounds are inclusive, matching the
/// first/last sector convention of partition table entries.
#[derive(Clone, Copy, Debug, PartialEq, Eq)]
pub struct SectorSpan {
    pub start: u64,
    pub end: u64,
}

/// The validated sector map. Produced once by `plan`, never mutated.
#[derive(Clone, Copy, Debug, PartialEq, Eq)]
pub struct DiskLayout {
    pub block_size: u64,
    pub input_len: u64,
    pub padding_sectors: u64,
    pub data_sectors: u64,
    pub footer_sectors: u64,
    pub total_sectors: u64,
    pub total_bytes: u64,
    pub esp: Option<SectorSpan>,
}

/// Why the planner refused its inputs.
#[derive(Clone, Copy, Debug, PartialEq, Eq, Structural)]
pub enum GeometryError {
    /// The logical block size is not 512 or 4096.
    InvalidBlockSize { got: u64 },
    /// An ESP was requested but the padding cannot hold one; `min_pad_mib`
    /// is the least padding that would.
    InsufficientPadding { min_pad_mib: u64 },
}

impl DiskLayout {
    /// Internal consistency of a sector map: block size valid, every count
    /// derived from the inputs by the documented formulas, the total exact,
    /// and the ESP (when present) aligned to 1 MiB and ending one sector
    /// before the data region.
    pub open spec fn wf(self) -> bool {
        &&& valid_block_size(self.block_size)
        &&& self.input_len >= 1
        &&& self.data_sectors == data_sectors_spec(self.input_len, self.block_size)
        &&& self.data_sectors >= 1
        &&& self.footer_sectors == footer_sectors_spec(self.block_size)
        &&& self.total_sectors == self.padding_sectors + self.data_sectors
            + self.footer_sectors
        &&& self.total_bytes == self.total_sectors * self.block_size
        &&& match self.esp {
            Some(span) => {
                &&& span.start == esp_start_spec(self.block_size)
                &&& span.end + 1 == self.padding_sectors
                &&& span.start < span.end
            },
            None => true,
        }
    }

    /// First sector of the data region.
    pub open spec fn data_start_sector(self) -> u64 {
        self.padding_sectors
    }

    /// Last sector of the data region, inclusive.
    pub open spec fn data_end_sector(self) -> int {
        self.padding_sectors + self.data_sectors - 1
    }

    /// Byte offset where the image bytes begin in the output file.
    pub fn data_start_bytes(&self) -> (r: u64)
        requires
            self.wf(),
        ensures
            r == self.padding_sectors * self.block_size,
            r <= self.total_bytes,
    {
        proof {
            lemma_mul_inequality(
                self.padding_sectors as int,
                self.total_sectors as int,
                self.block_size as int,
            );
        }
        self.padding_sectors * self.block_size
    }

    /// The ESP's byte range in the output file, half-open.
    pub fn esp_byte_range(&self) -> (r: (u64, u64))
        requires
            self.wf(),
            self.esp is Some,
        ensures
            r.0 == self.esp->Some_0.start * self.block_size,
            r.1 == (self.esp->Some_0.end + 1) * self.block_size,
            r.0 < r.1 <= self.total_bytes,
    {
        let span = self.esp.unwrap();
        proof {
            let bs = self.block_size as int;
            lemma_mul_inequality(span.end + 1, self.total_sectors as int, bs);
            lemma_mul_inequality(span.start as int, span.end as int, bs);
            assert((span.end + 1) * bs == span.end * bs + bs) by (nonlinear_arith);
        }
        (span.start * self.block_size, (span.end + 1) * self.block_size)
    }
}

/// `plan(inputLengthBytes, padMiB, logicalBlockSize, wantESP)`: validate the
/// block size, size every region, and place the optional ESP; reject padding
/// that cannot hold the requested ESP. The preconditions only keep the
/// arithmetic inside `u64`; a non-empty image is assumed because an empty
/// one has no partition to carve.
pub fn plan(input_len: u64, pad_mib: u64, block_size: u64, want_esp: bool) -> (r: Result<
    DiskLayout,
    GeometryError,
>)
    requires
        input_len >= 1,
        pad_mib * MIB <= u64::MAX,
        valid_block_size(block_size) ==> total_sectors_spec(input_len, pad_mib, block_size)
            * block_size <= u64::MAX,
    ensures
        match r {
            Ok(l) => {
                &&& valid_block_size(block_size)
                &&& (want_esp ==> esp_fits(pad_mib, block_size))
                &&& l == layout_spec(input_len, pad_mib, block_size, want_esp)
                &&& l.wf()
            },
            Err(GeometryError::InvalidBlockSize { got }) => {
                &&& got == block_size
                &&& !valid_block_size(block_size)
            },
            Err(GeometryError::InsufficientPadding { min_pad_mib }) => {
                &&& valid_block_size(block_size)
                &&& want_esp
                &&& !esp_fits(pad_mib, block_size)
                &&& min_pad_mib == MIN_ESP_PAD_MIB
                &&& esp_fits(min_pad_mib, block_size)
                &&& !esp_fits((min_pad_mib - 1) as u64, block_size)
            },
        },
{
    if block_size != 512 && block_size != 4096 {
        return Err(GeometryError::InvalidBlockSize { got: block_size });
    }
    let pad_bytes: u64 = pad_mib * MIB;
    let padding_sectors: u64 = pad_bytes / block_size;
    proof {
        let bs = block_size as int;
        lemma_div_pos_is_pos(pad_mib * MIB, bs);
        lemma_div_pos_is_pos(MIB as int, bs);
        lemma_div_pos_is_pos(input_len - 1, bs);
        lemma_ceil_div_step(input_len as int, bs);
        lemma_div_nonincreasing(input_len - 1, bs);
    }
    let data_sectors: u64 = (input_len - 1) / block_size + 1;
    let footer_sectors: u64 = MIB / block_size;
    proof {
        let bs = block_size as int;
        let t = total_sectors_spec(input_len, pad_mib, block_size);
        lemma_mul_inequality(1, bs, t);
        assert(1 * t == t) by (nonlinear_arith);
        assert(bs * t == t * bs) by (nonlinear_arith);
    }
    let total_sectors: u64 = padding_sectors + data_sectors + footer_sectors;
    let total_bytes: u64 = total_sectors * block_size;
    let esp: Option<SectorSpan> = if want_esp {
        let esp_start: u64 = MIB / block_size;
        if padding_sectors < esp_start + 2 {
            proof {
                lemma_min_esp_pad(block_size);
            }
            return Err(GeometryError::InsufficientPadding { min_pad_mib: MIN_ESP_PAD_MIB });
        }
        Some(SectorSpan { start: esp_start, end: padding_sectors - 1 })
    } else {
        None
    };
    Ok(DiskLayout {
        block_size,
        input_len,
        padding_sectors,
        data_sectors,
        footer_sectors,
        total_sectors,
        total_bytes,
        esp,
    })
}

/// The exact layout a successful `plan` returns, as a function of its
/// inputs alone.
pub open spec fn layout_spec(input_len: u64, pad_mib: u64, block_size: u64, want_esp: bool)
    -> DiskLayout {
    DiskLayout {
        block_size,
        input_len,
        padding_sectors: padding_sectors_spec(pad_mib, block_size) as u64,
        data_sectors: data_sectors_spec(input_len, block_size) as u64,
        footer_sectors: footer_sectors_spec(block_size) as u64,
        total_sectors: total_sectors_spec(input_len, pad_mib, block_size) as u64,
        total_bytes: (total_sectors_spec(input_len, pad_mib, block_size) * block_size) as u64,
        esp: if want_esp {
            Some(
                SectorSpan {
                    start: esp_start_spec(block_size) as u64,
                    end: (padding_sectors_spec(pad_mib, block_size) - 1) as u64,
                },
            )
        } else {
            None
        },
    }
}

/// Two MiB of padding is the least that fits an ESP, for either block size.
proof fn lemma_min_esp_pad(bs: u64)
    requires
        valid_block_size(bs),
    ensures
        esp_fits(MIN_ESP_PAD_MIB, bs),
        !esp_fits((MIN_ESP_PAD_MIB - 1) as u64, bs),
{
    if bs == 512 {
        assert(padding_sectors_spec(2u64, 512u64) == 4096);
        assert(padding_sectors_spec(1u64, 512u64) == 2048);
        assert(esp_start_spec(512u64) == 2048);
    } else {
        assert(padding_sectors_spec(2u64, 4096u64) == 512);
        assert(padding_sectors_spec(1u64, 4096u64) == 256);
        assert(esp_start_spec(4096u64) == 256);
    }
}

/// For a positive length, rounding up by adding `b - 1` before dividing is
/// one more than dividing the predecessor.
proof fn lemma_ceil_div_step(a: int, b: int)
    requires
        a >= 1,
        b >= 1,
    ensures
        ceil_div(a, b) == (a - 1) / b + 1,
{
    lemma_div_plus_one(a - 1, b);
}

/// Total byte accounting is exact: the image file's length is the sector
/// count times the sector size, with no rounding loss.
pub proof fn lemma_total_bytes_exact(l: DiskLayout)
    requires
        l.wf(),
    ensures
        l.total_bytes == l.total_sectors * l.block_size,
        l.total_bytes == (l.padding_sectors + l.data_sectors + l.footer_sectors)
            * l.block_size,
{
}

/// The data region is sized by the ceiling of the image length over the
/// block size: it holds the whole image, and no sector fewer would.
pub proof fn lemma_data_sectors_is_ceiling(l: DiskLayout)
    requires
        l.wf(),
    ensures
        l.data_sectors * l.block_size >= l.input_len,
        (l.data_sectors - 1) * l.block_size < l.input_len,
{
    let il = l.input_len as int;
    let bs = l.block_size as int;
    let q = (il + bs - 1) / bs;
    lemma_fundamental_div_mod(il + bs - 1, bs);
    let m = (il + bs - 1) % bs;
    assert(il + bs - 1 == bs * q + m);
    assert(q * bs == bs * q) by (nonlinear_arith);
    assert((q - 1) * bs == bs * q - bs) by (nonlinear_arith);
}

/// The ESP, when present, lies strictly before the data region: its last
/// sector is below the data region's first, and no sector `s` is in both.
pub proof fn lemma_esp_precedes_data(l: DiskLayout, span: SectorSpan, s: int)
    requires
        l.wf(),
        l.esp == Some(span),
    ensures
        span.end < l.data_start_sector(),
        span.start <= s <= span.end ==> !(l.data_start_sector() <= s <= l.data_end_sector()),
{
}

} // verus!
