use vstd::prelude::*;

pub mod encrypted_offsets;
pub mod encrypted_schemas;
pub mod image;

use crate::security::image::{
    bytes16_at, bytes32_at, find_nul, first_nul_from, le_u16, le_u32, lemma_first_nul,
    lemma_le_u16_bytes, lemma_le_u32_bytes, read_u16, read_u32,
};

verus! {

/// FNV-1a offset basis: the hash of the empty name.
pub const HASH_SEED: u32 = 0x811C9DC5;

/// FNV-1a 32-bit prime.
pub const HASH_PRIME: u32 = 0x01000193;

/// One FNV-1a round: fold the byte in with xor, then multiply by the prime
/// modulo 2^32.
pub open spec fn fnv1a_step(h: u32, b: u8) -> u32 {
    (((h ^ (b as u32)) as nat * (HASH_PRIME as nat)) % 0x1_0000_0000) as u32
}

/// FNV-1a state after folding every byte of `s`, in order, into the state `h`.
pub open spec fn fnv1a_from(h: u32, s: Seq<u8>) -> u32
    decreases s.len(),
{
    if s.len() == 0 {
        h
    } else {
        fnv1a_step(fnv1a_from(h, s.drop_last()), s.last())
    }
}

/// The 32-bit FNV-1a hash of an export name.
pub open spec fn api_hash(name: Seq<u8>) -> u32 {
    fnv1a_from(HASH_SEED, name)
}

/// Hashing is incremental: hashing `a + b` is hashing `b` from the state that
/// hashing `a` left behind.
pub proof fn lemma_hash_concat(h: u32, a: Seq<u8>, b: Seq<u8>)
    ensures
        fnv1a_from(h, a + b) == fnv1a_from(fnv1a_from(h, a), b),
    decreases b.len(),
{
    if b.len() == 0 {
        assert(a + b =~= a);
    } else {
        lemma_hash_concat(h, a, b.drop_last());
        assert((a + b).drop_last() =~= a + b.drop_last());
        assert((a + b).last() == b.last());
    }
}

/// The API hash is the FNV-1a fold over every byte of the name, whatever its
/// length: the empty name hashes to `0x811C9DC5`, and appending a byte `b`
/// xors it into the hash and multiplies by `0x01000193` modulo 2^32.
pub proof fn lemma_api_hash_fold(s: Seq<u8>, b: u8)
    ensures
        api_hash(Seq::<u8>::empty()) == 0x811C9DC5u32,
        api_hash(s.push(b)) == (((api_hash(s) ^ (b as u32)) as nat * 0x01000193nat) % 0x1_0000_0000nat) as u32,
{
    assert(s.push(b).drop_last() =~= s);
    assert(s.push(b).last() == b);
}

/// Computes the 32-bit FNV-1a hash of `name` (basis `0x811C9DC5`, prime
/// `0x01000193`), the key by which exports are looked up.
pub fn hash_api(name: &[u8]) -> (r: u32)
    ensures
        r == api_hash(name@),
{
    let mut hash: u32 = HASH_SEED;
    let mut i: usize = 0;
    while i < name.len()
        invariant
            i <= name@.len(),
            hash == fnv1a_from(HASH_SEED, name@.take(i as int)),
        decreases name@.len() - i,
    {
        assert(name@.take(i + 1).drop_last() =~= name@.take(i as int));
        hash ^= name[i] as u32;
        hash = hash.wrapping_mul(HASH_PRIME);
        i += 1;
    }
    assert(name@.take(i as int) =~= name@);
    hash
}

/// Always `true`: the value `0x12345678` xor-ed with itself is zero. Guards
/// that look conditional but never change what runs hinge on it.
pub fn opaque_predicate() -> (r: bool)
    ensures
        r,
{
    let seed: u32 = 0x12345678;
    let result: u32 = seed ^ 0x12345678u32;
    assert(result == 0) by (bit_vector)
        requires
            seed == 0x12345678u32,
            result == seed ^ 0x12345678u32,
    ;
    result == 0
}

/// Hands an offset from the generated SDK tables on unchanged (0 stays the
/// "not available" marker).
pub(crate) fn sanitize_sdk_value(value: usize) -> (r: usize)
    ensures
        r == value,
{
    if value == 0 {
        0
    } else {
        value
    }
}

/// `MZ`, the signature that opens every module image.
pub const DOS_SIGNATURE: u16 = 0x5A4D;

/// The export-directory fields that the lookup reads, each a byte offset into
/// the image.
pub struct ExportDirectory {
    pub num_names: u32,
    pub functions: u32,
    pub names: u32,
    pub ordinals: u32,
}

/// The export directory as the lookup reads it: the word at `e_lfanew + 24`
/// is taken as the directory's offset, and at offsets 24, 28, 32 and 36 of
/// the directory stand the name count and the function, name and ordinal
/// tables. `None` when a read falls outside the image.
pub open spec fn export_directory(img: Seq<u8>) -> Option<ExportDirectory> {
    match le_u32(img, 0x3C) {
        None => None,
        Some(nt) => match le_u32(img, nt + 24) {
            None => None,
            Some(ed) => match (
                le_u32(img, ed + 24),
                le_u32(img, ed + 28),
                le_u32(img, ed + 32),
                le_u32(img, ed + 36),
            ) {
                (Some(n), Some(f), Some(names), Some(ords)) => Some(
                    ExportDirectory { num_names: n, functions: f, names: names, ordinals: ords },
                ),
                _ => None,
            },
        },
    }
}

/// The byte offset at which the name of export `i` starts.
pub open spec fn name_offset(img: Seq<u8>, dir: ExportDirectory, i: int) -> Option<u32> {
    le_u32(img, dir.names + 4 * i)
}

/// The name of export `i`: the bytes from its name offset up to the next zero.
pub open spec fn export_name(img: Seq<u8>, dir: ExportDirectory, i: int) -> Option<Seq<u8>> {
    match name_offset(img, dir, i) {
        None => None,
        Some(start) => match first_nul_from(img, start as int) {
            None => None,
            Some(end) => Some(img.subrange(start as int, end)),
        },
    }
}

/// The address of export `i`: `module` plus the function offset that the
/// ordinal table picks for it. `None` when a read falls outside the image or
/// the sum does not fit in a `usize`.
pub open spec fn export_address(img: Seq<u8>, module: usize, dir: ExportDirectory, i: int) -> Option<
    usize,
> {
    match le_u16(img, dir.ordinals + 2 * i) {
        None => None,
        Some(ord) => match le_u32(img, dir.functions + 4 * ord) {
            None => None,
            Some(rva) => if module + rva <= usize::MAX {
                Some((module + rva) as usize)
            } else {
                None
            },
        },
    }
}

/// Scans the names from index `i` on: the address of the first export whose
/// name hashes to `hash`; `None` when there is none, or when a name cannot be
/// read before one is found.
pub open spec fn export_scan(img: Seq<u8>, module: usize, dir: ExportDirectory, hash: u32, i: int) -> Option<
    usize,
>
    decreases dir.num_names - i,
{
    if i < 0 || i >= dir.num_names {
        None
    } else {
        match export_name(img, dir, i) {
            None => None,
            Some(name) => if api_hash(name) == hash {
                export_address(img, module, dir, i)
            } else {
                export_scan(img, module, dir, hash, i + 1)
            },
        }
    }
}

/// What a lookup of `hash` in the image of `module` gives: nothing for a null
/// module or an image without the `MZ` signature; otherwise the scan of the
/// export names from the first on.
pub open spec fn export_lookup(img: Seq<u8>, module: usize, hash: u32) -> Option<usize> {
    if module == 0 || le_u16(img, 0) != Some(DOS_SIGNATURE) {
        None
    } else {
        match export_directory(img) {
            None => None,
            Some(dir) => export_scan(img, module, dir, hash, 0),
        }
    }
}

/// Export `i` is the first one at or after `k` whose name hashes to `hash`,
/// every name before it from `k` on could be read, and its address is `a`.
pub open spec fn first_match_at(
    img: Seq<u8>,
    module: usize,
    dir: ExportDirectory,
    hash: u32,
    k: int,
    i: int,
    a: usize,
) -> bool {
    &&& 0 <= k <= i < dir.num_names
    &&& forall|j: int|
        k <= j < i ==> (#[trigger] export_name(img, dir, j) matches Some(nj) && api_hash(nj)
            != hash)
    &&& export_name(img, dir, i) matches Some(ni) && api_hash(ni) == hash
    &&& export_address(img, module, dir, i) == Some(a)
}

/// The scan from `k` gives `a` exactly when some export at or after `k` is the
/// first matching one and has address `a`.
pub proof fn lemma_export_scan_first_match(
    img: Seq<u8>,
    module: usize,
    dir: ExportDirectory,
    hash: u32,
    k: int,
    a: usize,
)
    requires
        0 <= k,
    ensures
        export_scan(img, module, dir, hash, k) == Some(a) <==> exists|i: int|
            first_match_at(img, module, dir, hash, k, i, a),
    decreases dir.num_names - k,
{
    if k >= dir.num_names {
        assert forall|i: int| !first_match_at(img, module, dir, hash, k, i, a) by {}
    } else {
        match export_name(img, dir, k) {
            None => {
                assert forall|i: int| !first_match_at(img, module, dir, hash, k, i, a) by {
                    if first_match_at(img, module, dir, hash, k, i, a) && i > k {
                        assert(export_name(img, dir, k) is Some);
                    }
                }
            },
            Some(name) => {
                if api_hash(name) == hash {
                    if export_scan(img, module, dir, hash, k) == Some(a) {
                        assert(first_match_at(img, module, dir, hash, k, k, a));
                    }
                    assert forall|i: int| first_match_at(img, module, dir, hash, k, i, a) implies i
                        == k by {
                        if i > k {
                            assert(export_name(img, dir, k) matches Some(nj) && api_hash(nj)
                                != hash);
                        }
                    }
                } else {
                    lemma_export_scan_first_match(img, module, dir, hash, k + 1, a);
                    if export_scan(img, module, dir, hash, k) == Some(a) {
                        let k1 = k + 1;
                        let i = choose|i: int| #[trigger]
                            first_match_at(img, module, dir, hash, k1, i, a);
                        assert forall|j: int| k <= j < i implies (#[trigger] export_name(
                            img,
                            dir,
                            j,
                        ) matches Some(nj) && api_hash(nj) != hash) by {
                            if j > k {
                                assert(first_match_at(img, module, dir, hash, k + 1, i, a));
                            }
                        }
                        assert(first_match_at(img, module, dir, hash, k, i, a));
                    }
                    assert forall|i: int| first_match_at(img, module, dir, hash, k, i, a) implies
                        first_match_at(img, module, dir, hash, k + 1, i, a) by {
                        if i == k {
                            assert(export_name(img, dir, k) == Some(name));
                        }
                    }
                }
            },
        }
    }
}

/// A lookup gives the address `a` exactly when the module is not null, the
/// image opens with `MZ`, its export directory can be read, and `a` is the
/// address of the first export whose name hashes to `hash`.
pub proof fn lemma_export_lookup_first_match(img: Seq<u8>, module: usize, hash: u32, a: usize)
    ensures
        export_lookup(img, module, hash) == Some(a) <==> {
            &&& module != 0
            &&& le_u16(img, 0) == Some(DOS_SIGNATURE)
            &&& export_directory(img) matches Some(dir) && exists|i: int|
                first_match_at(img, module, dir, hash, 0, i, a)
        },
{
    if module != 0 && le_u16(img, 0) == Some(DOS_SIGNATURE) {
        if let Some(dir) = export_directory(img) {
            lemma_export_scan_first_match(img, module, dir, hash, 0, a);
        }
    }
}

/// Whether the export directory can be read: the words at `0x3C`, at
/// `e_lfanew + 24`, and at offsets 24 to 39 of the directory all lie inside
/// the image.
pub open spec fn directory_readable(img: Seq<u8>) -> bool {
    &&& 0x3C + 4 <= img.len()
    &&& 0 <= bytes32_at(img, 0x3C) + 24 && bytes32_at(img, 0x3C) + 24 + 4 <= img.len()
    &&& bytes32_at(img, bytes32_at(img, 0x3C) + 24) + 40 <= img.len()
}

/// The export directory is read from the image bytes: `e_lfanew` is the
/// little-endian word at `0x3C`, the directory offset is the word at
/// `e_lfanew + 24`, and the name count and the function, name and ordinal
/// tables are the words at offsets 24, 28, 32 and 36 of the directory. It can
/// be read exactly when all those words lie inside the image.
pub proof fn lemma_export_directory_bytes(img: Seq<u8>)
    ensures
        export_directory(img) is Some <==> directory_readable(img),
        export_directory(img) matches Some(dir) ==> ({
            let ed = bytes32_at(img, bytes32_at(img, 0x3C) + 24);
            &&& dir.num_names as int == bytes32_at(img, ed + 24)
            &&& dir.functions as int == bytes32_at(img, ed + 28)
            &&& dir.names as int == bytes32_at(img, ed + 32)
            &&& dir.ordinals as int == bytes32_at(img, ed + 36)
        }),
{
    lemma_le_u32_bytes(img, 0x3C);
    if let Some(nt) = le_u32(img, 0x3C) {
        lemma_le_u32_bytes(img, nt + 24);
        if let Some(ed) = le_u32(img, nt + 24) {
            lemma_le_u32_bytes(img, ed + 24);
            lemma_le_u32_bytes(img, ed + 28);
            lemma_le_u32_bytes(img, ed + 32);
            lemma_le_u32_bytes(img, ed + 36);
        }
    }
}

/// The name of export `i` is read through the `i`-th entry of the name table
/// (the word at `names + 4 * i`, for every `i`): it is the run of non-zero
/// bytes that starts at that offset, ending at the first zero byte. When the
/// entry and a terminating zero lie inside the image, the name can be read.
pub proof fn lemma_export_name_bytes(img: Seq<u8>, dir: ExportDirectory, i: int)
    requires
        0 <= i,
        dir.names + 4 * i + 4 <= img.len(),
    ensures
        ({
            let start = bytes32_at(img, dir.names + 4 * i);
            &&& export_name(img, dir, i) matches Some(nm) ==> {
                &&& start + nm.len() < img.len()
                &&& nm =~= img.subrange(start, start + nm.len())
                &&& img[start + nm.len()] == 0
                &&& forall|k: int| 0 <= k < nm.len() ==> nm[k] != 0
            }
            &&& export_name(img, dir, i) is None <==> forall|j: int|
                start <= j < img.len() ==> img[j] != 0
        }),
{
    lemma_le_u32_bytes(img, dir.names + 4 * i);
    let start = bytes32_at(img, dir.names + 4 * i);
    lemma_first_nul(img, start);
    if let Some(nm) = export_name(img, dir, i) {
        assert forall|k: int| 0 <= k < nm.len() implies nm[k] != 0 by {
            assert(nm[k] == img[start + k]);
        }
    }
}

/// The address of export `i` goes through the ordinal table: the ordinal is
/// the full 16-bit little-endian word at `ordinals + 2 * i`, and the address is
/// `module` plus the 32-bit word at `functions + 4 * ordinal`, when both reads
/// lie inside the image and the sum fits in a `usize`.
pub proof fn lemma_export_address_bytes(img: Seq<u8>, module: usize, dir: ExportDirectory, i: int)
    requires
        0 <= i,
    ensures
        ({
            let o = dir.ordinals + 2 * i;
            let f = dir.functions + 4 * bytes16_at(img, o);
            &&& (o + 2 <= img.len() && f + 4 <= img.len() && module + bytes32_at(img, f)
                <= usize::MAX) ==> export_address(img, module, dir, i) == Some(
                (module + bytes32_at(img, f)) as usize,
            )
            &&& export_address(img, module, dir, i) matches Some(a) ==> (o + 2 <= img.len() && f
                + 4 <= img.len() && a as int == module + bytes32_at(img, f))
        }),
{
    let o = dir.ordinals + 2 * i;
    lemma_le_u16_bytes(img, o);
    if let Some(ord) = le_u16(img, o) {
        lemma_le_u32_bytes(img, dir.functions + 4 * ord);
    }
}

/// A lookup of `hash` in the image of a non-null module that opens with `MZ`
/// and has a readable export directory gives `module` plus the function word
/// that the full 16-bit ordinal of the first export named with that hash
/// selects.
pub proof fn lemma_resolve_address(img: Seq<u8>, module: usize, hash: u32, dir: ExportDirectory, i: int)
    requires
        module != 0,
        img.len() >= 2 && img[0] == 0x4D && img[1] == 0x5A,
        export_directory(img) == Some(dir),
        0 <= i < dir.num_names,
        forall|j: int|
            0 <= j < i ==> (#[trigger] export_name(img, dir, j) matches Some(nj) && api_hash(nj)
                != hash),
        export_name(img, dir, i) matches Some(ni) && api_hash(ni) == hash,
        dir.ordinals + 2 * i + 2 <= img.len(),
        dir.functions + 4 * bytes16_at(img, dir.ordinals + 2 * i) + 4 <= img.len(),
        module + bytes32_at(img, dir.functions + 4 * bytes16_at(img, dir.ordinals + 2 * i))
            <= usize::MAX,
    ensures
        export_lookup(img, module, hash) == Some(
            (module + bytes32_at(img, dir.functions + 4 * bytes16_at(img, dir.ordinals + 2 * i))) as usize,
        ),
{
    lemma_le_u16_bytes(img, 0);
    lemma_export_address_bytes(img, module, dir, i);
    let a = (module + bytes32_at(img, dir.functions + 4 * bytes16_at(img, dir.ordinals + 2 * i))) as usize;
    assert(first_match_at(img, module, dir, hash, 0, i, a));
    lemma_export_lookup_first_match(img, module, hash, a);
}

/// A null module, or an image that does not open with the bytes `M`, `Z`,
/// never resolves.
pub proof fn lemma_resolve_needs_module_and_mz(img: Seq<u8>, module: usize, hash: u32)
    ensures
        module == 0 ==> export_lookup(img, module, hash) is None,
        (img.len() < 2 || img[0] != 0x4D || img[1] != 0x5A) ==> export_lookup(img, module, hash)
            is None,
{
    lemma_le_u16_bytes(img, 0);
}

/// The two system modules whose exports the overlay resolves by name hash.
pub struct ApiResolver {
    user32: usize,
    kernel32: usize,
}

impl ApiResolver {
    /// A resolver over the modules loaded at `user32` and `kernel32`
    /// (0 for a module that could not be loaded).
    pub fn new(user32: usize, kernel32: usize) -> (r: ApiResolver)
        ensures
            r.user32_base() == user32,
            r.kernel32_base() == kernel32,
    {
        ApiResolver { user32, kernel32 }
    }

    pub closed spec fn user32_base(&self) -> usize {
        self.user32
    }

    pub closed spec fn kernel32_base(&self) -> usize {
        self.kernel32
    }

    /// Base address of `user32.dll`.
    pub fn user32(&self) -> (r: usize)
        ensures
            r == self.user32_base(),
    {
        self.user32
    }

    /// Base address of `kernel32.dll`.
    pub fn kernel32(&self) -> (r: usize)
        ensures
            r == self.kernel32_base(),
    {
        self.kernel32
    }

    /// Looks up, in the image `image` of the module loaded at `module`, the
    /// first export whose name hashes to `hash`, and returns its address.
    /// `None` for a null module, a missing `MZ` signature, no matching name,
    /// or a table read that falls outside `image`.
    pub fn resolve(&self, module: usize, image: &[u8], hash: u32) -> (r: Option<usize>)
        ensures
            r == export_lookup(image@, module, hash),
    {
        if module == 0 {
            return None;
        }
        match read_u16(image, 0) {
            Some(sig) => {
                if sig != DOS_SIGNATURE {
                    return None;
                }
            },
            None => {
                return None;
            },
        }
        let nt: u32 = match read_u32(image, 0x3C) {
            Some(v) => v,
            None => {
                return None;
            },
        };
        let ed: u32 = match read_u32(image, nt as u64 + 24) {
            Some(v) => v,
            None => {
                return None;
            },
        };
        let num_names: u32 = match read_u32(image, ed as u64 + 24) {
            Some(v) => v,
            None => {
                return None;
            },
        };
        let functions: u32 = match read_u32(image, ed as u64 + 28) {
            Some(v) => v,
            None => {
                return None;
            },
        };
        let names: u32 = match read_u32(image, ed as u64 + 32) {
            Some(v) => v,
            None => {
                return None;
            },
        };
        let ordinals: u32 = match read_u32(image, ed as u64 + 36) {
            Some(v) => v,
            None => {
                return None;
            },
        };
        let ghost dir = ExportDirectory {
            num_names: num_names,
            functions: functions,
            names: names,
            ordinals: ordinals,
        };
        assert(export_directory(image@) == Some(dir));
        let mut i: u64 = 0;
        while i < num_names as u64
            invariant
                i <= num_names,
                dir.num_names == num_names,
                dir.functions == functions,
                dir.names == names,
                dir.ordinals == ordinals,
                export_lookup(image@, module, hash) == export_scan(
                    image@,
                    module,
                    dir,
                    hash,
                    i as int,
                ),
            decreases num_names - i,
        {
            let name_rva: u32 = match read_u32(image, names as u64 + 4 * i) {
                Some(v) => v,
                None => {
                    return None;
                },
            };
            let end: usize = match find_nul(image, name_rva as u64) {
                Some(e) => e,
                None => {
                    return None;
                },
            };
            let name: &[u8] = &image[name_rva as usize..end];
            if hash_api(name) == hash {
                let ord: u16 = match read_u16(image, ordinals as u64 + 2 * i) {
                    Some(v) => v,
                    None => {
                        return None;
                    },
                };
                let rva: u32 = match read_u32(image, functions as u64 + 4 * (ord as u64)) {
                    Some(v) => v,
                    None => {
                        return None;
                    },
                };
                return module.checked_add(rva as usize);
            }
            i += 1;
        }
        None
    }
}

} // verus!
