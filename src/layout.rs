use vstd::prelude::*;

verus! {

/// The file's byte-order mark says little-endian (`II`).
pub open spec fn little_endian(b: Seq<u8>) -> bool {
    b[0] == 0x49
}

/// The unsigned 16-bit field at `off`, in the file's byte order.
pub open spec fn u16_at(b: Seq<u8>, off: int) -> int {
    if little_endian(b) {
        b[off] + 256 * b[off + 1]
    } else {
        256 * b[off] + b[off + 1]
    }
}

/// The unsigned 32-bit field at `off`, in the file's byte order.
pub open spec fn u32_at(b: Seq<u8>, off: int) -> int {
    if little_endian(b) {
        u16_at(b, off) + 65536 * u16_at(b, off + 2)
    } else {
        65536 * u16_at(b, off) + u16_at(b, off + 2)
    }
}

/// The unsigned 64-bit field at `off`, in the file's byte order.
pub open spec fn u64_at(b: Seq<u8>, off: int) -> int {
    if little_endian(b) {
        u32_at(b, off) + 0x1_0000_0000 * u32_at(b, off + 4)
    } else {
        0x1_0000_0000 * u32_at(b, off) + u32_at(b, off + 4)
    }
}

pub open spec fn has_byte_order_mark(b: Seq<u8>) -> bool {
    b.len() >= 2 && ((b[0] == 0x49 && b[1] == 0x49) || (b[0] == 0x4D && b[1] == 0x4D))
}

/// A classic header: byte-order mark, then 42 and a 32-bit directory offset.
pub open spec fn is_classic_tiff(b: Seq<u8>) -> bool {
    b.len() >= 8 && has_byte_order_mark(b) && u16_at(b, 2) == 42
}

/// A BigTIFF header: byte-order mark, then 43, 8, 0 and a 64-bit directory offset.
pub open spec fn is_big_tiff(b: Seq<u8>) -> bool {
    b.len() >= 16 && has_byte_order_mark(b) && u16_at(b, 2) == 43 && u16_at(b, 4) == 8
        && u16_at(b, 6) == 0
}

/// Offset of the first image file directory.
pub open spec fn ifd_start(b: Seq<u8>) -> int {
    if is_big_tiff(b) {
        u64_at(b, 8)
    } else {
        u32_at(b, 4)
    }
}

/// Size of the directory's entry count field.
pub open spec fn count_size(b: Seq<u8>) -> int {
    if is_big_tiff(b) {
        8
    } else {
        2
    }
}

/// Size of one directory entry.
pub open spec fn entry_size(b: Seq<u8>) -> int {
    if is_big_tiff(b) {
        20
    } else {
        12
    }
}

/// Number of entries of the first image file directory.
pub open spec fn entry_count(b: Seq<u8>) -> int {
    if is_big_tiff(b) {
        u64_at(b, ifd_start(b))
    } else {
        u16_at(b, ifd_start(b))
    }
}

/// Offset of the `i`-th entry of the first directory.
pub open spec fn entry_at(b: Seq<u8>, i: int) -> int {
    ifd_start(b) + count_size(b) + entry_size(b) * i
}

/// The header is a TIFF header and the whole first directory lies within the file.
pub open spec fn directory_readable(b: Seq<u8>) -> bool {
    &&& is_classic_tiff(b) || is_big_tiff(b)
    &&& ifd_start(b) + count_size(b) <= b.len()
    &&& ifd_start(b) + count_size(b) + entry_size(b) * entry_count(b) <= b.len()
}

/// The entry at `e` holds the single value 1, as a SHORT or a LONG.
pub open spec fn entry_is_one(b: Seq<u8>, e: int) -> bool {
    let ty = u16_at(b, e + 2);
    let count = if is_big_tiff(b) {
        u64_at(b, e + 4)
    } else {
        u32_at(b, e + 4)
    };
    let v = if is_big_tiff(b) {
        e + 12
    } else {
        e + 8
    };
    count == 1 && ((ty == 3 && u16_at(b, v) == 1) || (ty == 4 && u32_at(b, v) == 1))
}

/// Tags of the directory entries that matter here.
pub const TAG_SAMPLES_PER_PIXEL: u16 = 277;

pub const TAG_PLANAR_CONFIGURATION: u16 = 284;

/// Every entry of the first directory with the given tag holds the value 1.
pub open spec fn tag_is_one(b: Seq<u8>, tag: int) -> bool {
    forall|i: int|
        0 <= i < entry_count(b) && u16_at(b, #[trigger] entry_at(b, i)) == tag ==> entry_is_one(
            b,
            entry_at(b, i),
        )
}

/// The file is not laid out in planes: where its first directory can be read,
/// every planar-configuration entry says 1 (samples of a pixel interleaved).
/// A file whose header or directory cannot be read is refused by the decoder
/// itself, with an error.
pub open spec fn supported_layout(b: Seq<u8>) -> bool {
    directory_readable(b) ==> tag_is_one(b, TAG_PLANAR_CONFIGURATION as int)
}

/// Where the first directory can be read, every samples-per-pixel entry says 1.
pub open spec fn single_channel(b: Seq<u8>) -> bool {
    directory_readable(b) ==> tag_is_one(b, TAG_SAMPLES_PER_PIXEL as int)
}

fn read_u16(b: &[u8], off: usize) -> (r: u64)
    requires
        b@.len() >= 1,
        off + 2 <= b@.len(),
    ensures
        r == u16_at(b@, off as int),
        r < 0x1_0000,
{
    if b[0] == 0x49 {
        b[off] as u64 + 256 * b[off + 1] as u64
    } else {
        256 * b[off] as u64 + b[off + 1] as u64
    }
}

fn read_u32(b: &[u8], off: usize) -> (r: u64)
    requires
        b@.len() >= 1,
        off + 4 <= b@.len(),
    ensures
        r == u32_at(b@, off as int),
        r < 0x1_0000_0000,
{
    let _len = b.len();
    let lo = read_u16(b, off);
    let hi = read_u16(b, off + 2);
    if b[0] == 0x49 {
        lo + 0x1_0000 * hi
    } else {
        0x1_0000 * lo + hi
    }
}

fn read_u64(b: &[u8], off: usize) -> (r: u64)
    requires
        b@.len() >= 1,
        off + 8 <= b@.len(),
    ensures
        r == u64_at(b@, off as int),
{
    let _len = b.len();
    let lo = read_u32(b, off);
    let hi = read_u32(b, off + 4);
    if b[0] == 0x49 {
        lo + 0x1_0000_0000 * hi
    } else {
        0x1_0000_0000 * lo + hi
    }
}

/// Where the first directory can be read: where its entries start, how many
/// there are, and whether the file is a BigTIFF.
fn directory(b: &[u8]) -> (r: Option<(usize, usize, bool)>)
    ensures
        match r {
            Some((start, n, big)) => directory_readable(b@) && start == ifd_start(b@) + count_size(
                b@,
            ) && n == entry_count(b@) && big == is_big_tiff(b@),
            None => !directory_readable(b@),
        },
{
    let len = b.len();
    if len < 8 || !((b[0] == 0x49 && b[1] == 0x49) || (b[0] == 0x4D && b[1] == 0x4D)) {
        return None;
    }
    let magic = read_u16(b, 2);
    if magic == 42 {
        let start = read_u32(b, 4);
        if start > len as u64 || len as u64 - start < 2 {
            return None;
        }
        let n = read_u16(b, start as usize);
        if n > (len as u64 - start - 2) / 12 {
            return None;
        }
        Some(((start + 2) as usize, n as usize, false))
    } else if magic == 43 && len >= 16 && read_u16(b, 4) == 8 && read_u16(b, 6) == 0 {
        let start = read_u64(b, 8);
        if start > len as u64 || len as u64 - start < 8 {
            return None;
        }
        let n = read_u64(b, start as usize);
        if n > (len as u64 - start - 8) / 20 {
            return None;
        }
        Some(((start + 8) as usize, n as usize, true))
    } else {
        return None;
    }
}

/// Whether the entry at `e` holds the single value 1, as a SHORT or a LONG.
fn check_entry_is_one(b: &[u8], e: usize, big: bool) -> (r: bool)
    requires
        b@.len() >= 1,
        big == is_big_tiff(b@),
        e + (if big {
            20int
        } else {
            12int
        }) <= b@.len(),
    ensures
        r == entry_is_one(b@, e as int),
{
    let _len = b.len();
    let ty = read_u16(b, e + 2);
    let count = if big {
        read_u64(b, e + 4)
    } else {
        read_u32(b, e + 4)
    };
    let v = if big {
        e + 12
    } else {
        e + 8
    };
    count == 1 && ((ty == 3 && read_u16(b, v) == 1) || (ty == 4 && read_u32(b, v) == 1))
}

/// Whether every entry of the first directory with tag `tag` holds 1, where
/// the directory can be read.
fn check_tag_is_one(b: &[u8], tag: u16) -> (r: bool)
    ensures
        r == (directory_readable(b@) ==> tag_is_one(b@, tag as int)),
{
    let (start, n, big) = match directory(b) {
        Some(d) => d,
        None => {
            return true;
        },
    };
    let len = b.len();
    let size: usize = if big {
        20
    } else {
        12
    };
    let mut i: usize = 0;
    while i < n
        invariant
            len == b@.len(),
            directory_readable(b@),
            big == is_big_tiff(b@),
            size == entry_size(b@),
            start == ifd_start(b@) + count_size(b@),
            n == entry_count(b@),
            start + size * n <= b@.len(),
            i <= n,
            forall|j: int|
                0 <= j < i && u16_at(b@, #[trigger] entry_at(b@, j)) == tag ==> entry_is_one(
                    b@,
                    entry_at(b@, j),
                ),
        decreases n - i,
    {
        assert(start + size * i + size <= start + size * n) by (nonlinear_arith)
            requires
                i < n,
                size > 0,
        ;
        let e = start + size * i;
        assert(e == entry_at(b@, i as int));
        if read_u16(b, e) == tag as u64 && !check_entry_is_one(b, e, big) {
            return false;
        }
        i = i + 1;
    }
    true
}

/// Decides whether the file may be handed to the decoders: it is refused
/// only where its first directory asks for a planar layout.
pub fn check_layout(b: &[u8]) -> (r: bool)
    ensures
        r == supported_layout(b@),
{
    check_tag_is_one(b, TAG_PLANAR_CONFIGURATION)
}

/// Decides whether the first directory gives one sample per pixel.
pub fn check_single_channel(b: &[u8]) -> (r: bool)
    ensures
        r == single_channel(b@),
{
    check_tag_is_one(b, TAG_SAMPLES_PER_PIXEL)
}

} // verus!
