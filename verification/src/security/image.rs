//! Little-endian reads and NUL-terminated names inside a module image.
use vstd::prelude::*;

verus! {

/// The little-endian 16-bit word at byte offset `off`, when two bytes lie there.
pub open spec fn le_u16(img: Seq<u8>, off: int) -> Option<u16> {
    if 0 <= off && off + 2 <= img.len() {
        Some((img[off] as int + img[off + 1] as int * 0x100) as u16)
    } else {
        None
    }
}

/// The little-endian 32-bit word at byte offset `off`, when four bytes lie there.
pub open spec fn le_u32(img: Seq<u8>, off: int) -> Option<u32> {
    if 0 <= off && off + 4 <= img.len() {
        Some(
            (img[off] as int + img[off + 1] as int * 0x100 + img[off + 2] as int * 0x1_0000
                + img[off + 3] as int * 0x100_0000) as u32,
        )
    } else {
        None
    }
}

/// The offset of the first zero byte at or after `k`, if the image has one.
pub open spec fn first_nul_from(img: Seq<u8>, k: int) -> Option<int>
    decreases img.len() - k,
{
    if k < 0 || k >= img.len() {
        None
    } else if img[k] == 0 {
        Some(k)
    } else {
        first_nul_from(img, k + 1)
    }
}

/// The 16-bit little-endian value of the two bytes at `off`.
pub open spec fn bytes16_at(img: Seq<u8>, off: int) -> int {
    img[off] as int + 256 * img[off + 1] as int
}

/// The 32-bit little-endian value of the four bytes at `off`.
pub open spec fn bytes32_at(img: Seq<u8>, off: int) -> int {
    img[off] as int + 256 * img[off + 1] as int + 65536 * img[off + 2] as int + 16777216 * img[
        off + 3
    ] as int
}

/// A 16-bit read inside the image gives the full little-endian value of its
/// two bytes; a read that does not fit gives nothing.
pub proof fn lemma_le_u16_bytes(img: Seq<u8>, off: int)
    ensures
        0 <= off && off + 2 <= img.len() ==> (le_u16(img, off) matches Some(v) && v as int
            == bytes16_at(img, off)),
        !(0 <= off && off + 2 <= img.len()) ==> le_u16(img, off) is None,
{
}

/// A 32-bit read inside the image gives the full little-endian value of its
/// four bytes; a read that does not fit gives nothing.
pub proof fn lemma_le_u32_bytes(img: Seq<u8>, off: int)
    ensures
        0 <= off && off + 4 <= img.len() ==> (le_u32(img, off) matches Some(v) && v as int
            == bytes32_at(img, off)),
        !(0 <= off && off + 4 <= img.len()) ==> le_u32(img, off) is None,
{
}

/// The NUL search from `k` finds the first zero byte at or after `k`: the
/// byte it names is zero and none before it from `k` on is; it finds nothing
/// exactly when no byte from `k` to the end is zero.
pub proof fn lemma_first_nul(img: Seq<u8>, k: int)
    requires
        0 <= k,
    ensures
        first_nul_from(img, k) matches Some(e) ==> (k <= e < img.len() && img[e] == 0 && forall|
            j: int,
        | k <= j < e ==> img[j] != 0),
        first_nul_from(img, k) is None <==> forall|j: int| k <= j < img.len() ==> img[j] != 0,
    decreases img.len() - k,
{
    if k < img.len() && img[k] != 0 {
        lemma_first_nul(img, k + 1);
        if first_nul_from(img, k) is None {
            assert forall|j: int| k <= j < img.len() implies img[j] != 0 by {}
        }
    }
}

/// Reads the little-endian 16-bit word at `off`, or `None` when it does not
/// fit inside `img`.
pub fn read_u16(img: &[u8], off: u64) -> (r: Option<u16>)
    ensures
        r == le_u16(img@, off as int),
{
    let len: u64 = img.len() as u64;
    if off <= len && len - off >= 2 {
        let i: usize = off as usize;
        Some((img[i] as u16) + (img[i + 1] as u16) * 0x100)
    } else {
        None
    }
}

/// Reads the little-endian 32-bit word at `off`, or `None` when it does not
/// fit inside `img`.
pub fn read_u32(img: &[u8], off: u64) -> (r: Option<u32>)
    ensures
        r == le_u32(img@, off as int),
{
    let len: u64 = img.len() as u64;
    if off <= len && len - off >= 4 {
        let i: usize = off as usize;
        Some(
            (img[i] as u32) + (img[i + 1] as u32) * 0x100 + (img[i + 2] as u32) * 0x1_0000
                + (img[i + 3] as u32) * 0x100_0000,
        )
    } else {
        None
    }
}

/// Finds the first zero byte at or after `start`, or `None` when the image
/// ends first.
pub fn find_nul(img: &[u8], start: u64) -> (r: Option<usize>)
    ensures
        match r {
            Some(end) => start <= end < img@.len() && first_nul_from(img@, start as int) == Some(
                end as int,
            ),
            None => first_nul_from(img@, start as int) is None,
        },
{
    let len: usize = img.len();
    if start >= len as u64 {
        return None;
    }
    let mut j: usize = start as usize;
    while j < len && img[j] != 0
        invariant
            len == img@.len(),
            start <= j <= len,
            first_nul_from(img@, start as int) == first_nul_from(img@, j as int),
        decreases len - j,
    {
        j += 1;
    }
    if j < len {
        Some(j)
    } else {
        None
    }
}

} // verus!
