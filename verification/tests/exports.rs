use lib::security::image::{find_nul, read_u16, read_u32};
use lib::security::{hash_api, ApiResolver};

const BASE: usize = 0x7FF0_0000_0000;

fn put_u16(img: &mut Vec<u8>, off: usize, v: u16) {
    img[off..off + 2].copy_from_slice(&v.to_le_bytes());
}

fn put_u32(img: &mut Vec<u8>, off: usize, v: u32) {
    img[off..off + 4].copy_from_slice(&v.to_le_bytes());
}

fn put_str(img: &mut Vec<u8>, off: usize, s: &[u8]) {
    img[off..off + s.len()].copy_from_slice(s);
    img[off + s.len()] = 0;
}

/// A small image with two exports: "GetAsyncKeyState" (ordinal 1, function
/// offset 0x2000) and "GetModuleHandleW" (ordinal 0, function offset 0x1000).
fn sample_image() -> Vec<u8> {
    let mut img = vec![0u8; 0x200];
    put_u16(&mut img, 0, 0x5A4D);
    put_u32(&mut img, 0x3C, 0x40);
    put_u32(&mut img, 0x40 + 24, 0x80);
    put_u32(&mut img, 0x80 + 24, 2);
    put_u32(&mut img, 0x80 + 28, 0x100);
    put_u32(&mut img, 0x80 + 32, 0x120);
    put_u32(&mut img, 0x80 + 36, 0x140);
    put_u32(&mut img, 0x100, 0x1000);
    put_u32(&mut img, 0x104, 0x2000);
    put_u32(&mut img, 0x120, 0x160);
    put_u32(&mut img, 0x124, 0x180);
    put_u16(&mut img, 0x140, 1);
    put_u16(&mut img, 0x142, 0);
    put_str(&mut img, 0x160, b"GetAsyncKeyState");
    put_str(&mut img, 0x180, b"GetModuleHandleW");
    img
}

#[test]
fn resolver_keeps_module_bases() {
    let r = ApiResolver::new(0x1000_0000, 0x2000_0000);
    assert_eq!(r.user32(), 0x1000_0000);
    assert_eq!(r.kernel32(), 0x2000_0000);
}

#[test]
fn resolve_finds_export_through_ordinal_table() {
    let img = sample_image();
    let r = ApiResolver::new(BASE, BASE);
    assert_eq!(r.resolve(BASE, &img, hash_api(b"GetAsyncKeyState")), Some(BASE + 0x2000));
    assert_eq!(r.resolve(BASE, &img, hash_api(b"GetModuleHandleW")), Some(BASE + 0x1000));
}

#[test]
fn resolve_unknown_hash_is_none() {
    let img = sample_image();
    let r = ApiResolver::new(BASE, BASE);
    assert_eq!(r.resolve(BASE, &img, hash_api(b"FreeLibraryAndExitThread")), None);
}

#[test]
fn resolve_null_module_is_none() {
    let img = sample_image();
    let r = ApiResolver::new(0, 0);
    assert_eq!(r.resolve(0, &img, hash_api(b"GetAsyncKeyState")), None);
}

#[test]
fn resolve_without_mz_signature_is_none() {
    let mut img = sample_image();
    img[0] = b'Z';
    let r = ApiResolver::new(BASE, BASE);
    assert_eq!(r.resolve(BASE, &img, hash_api(b"GetAsyncKeyState")), None);
}

#[test]
fn resolve_truncated_image_is_none() {
    let img = sample_image();
    let r = ApiResolver::new(BASE, BASE);
    assert_eq!(r.resolve(BASE, &img[..0x170], hash_api(b"GetModuleHandleW")), None);
    assert_eq!(r.resolve(BASE, &img[..1], hash_api(b"GetModuleHandleW")), None);
}

#[test]
fn resolve_first_matching_name_wins() {
    let mut img = sample_image();
    put_str(&mut img, 0x180, b"GetAsyncKeyState");
    let r = ApiResolver::new(BASE, BASE);
    assert_eq!(r.resolve(BASE, &img, hash_api(b"GetAsyncKeyState")), Some(BASE + 0x2000));
}

#[test]
fn resolve_address_overflow_is_none() {
    let img = sample_image();
    let base = usize::MAX - 0x10;
    let r = ApiResolver::new(base, base);
    assert_eq!(r.resolve(base, &img, hash_api(b"GetModuleHandleW")), None);
}

#[test]
fn little_endian_reads() {
    let img = [0x34u8, 0x12, 0x78, 0x56];
    assert_eq!(read_u16(&img, 0), Some(0x1234));
    assert_eq!(read_u32(&img, 0), Some(0x5678_1234));
    assert_eq!(read_u16(&img, 3), None);
    assert_eq!(read_u32(&img, 1), None);
    assert_eq!(read_u32(&img, u64::MAX), None);
}

#[test]
fn nul_search() {
    let img = *b"ab\0cd";
    assert_eq!(find_nul(&img, 0), Some(2));
    assert_eq!(find_nul(&img, 2), Some(2));
    assert_eq!(find_nul(&img, 3), None);
    assert_eq!(find_nul(&img, 9), None);
}
