use fontpool::{generate_fingerprint, FontDescriptor};

fn path_descriptor(path: &str, face_index: u32) -> FontDescriptor {
    FontDescriptor::Path { path: path.as_bytes().to_vec(), face_index }
}

#[test]
fn fingerprint_is_twenty_bytes() {
    // The input is longer than a digest, so a fingerprint of the right
    // length cannot be the input handed back.
    let d = path_descriptor("/usr/share/fonts/truetype/some-family-regular.ttf", 0);
    let fp = generate_fingerprint(&d);
    assert_eq!(fp.len(), 20);
}

#[test]
fn fingerprint_is_deterministic() {
    let d1 = path_descriptor("/fonts/a.ttf", 3);
    let d2 = path_descriptor("/fonts/a.ttf", 3);
    assert_eq!(generate_fingerprint(&d1), generate_fingerprint(&d2));
}

#[test]
fn fingerprint_distinguishes_face_index() {
    let d0 = path_descriptor("/fonts/a.ttf", 0);
    let d1 = path_descriptor("/fonts/a.ttf", 1);
    assert_ne!(generate_fingerprint(&d0), generate_fingerprint(&d1));
}

#[test]
fn fingerprint_distinguishes_paths() {
    let d0 = path_descriptor("/fonts/a.ttf", 0);
    let d1 = path_descriptor("/fonts/b.ttf", 0);
    assert_ne!(generate_fingerprint(&d0), generate_fingerprint(&d1));
}

#[test]
fn fingerprint_hashes_content_only() {
    // A path descriptor and a memory descriptor over the same bytes and
    // face index fingerprint identically: only the content is hashed.
    let p = path_descriptor("/fonts/a.ttf", 7);
    let m = FontDescriptor::Memory { bytes: "/fonts/a.ttf".as_bytes().to_vec(), face_index: 7 };
    assert_eq!(generate_fingerprint(&p), generate_fingerprint(&m));
}

#[test]
fn memory_fingerprint_is_deterministic() {
    let bytes: Vec<u8> = vec![0, 1, 0, 0, 255, 128, 64, 32, 16, 8];
    let m1 = FontDescriptor::Memory { bytes: bytes.clone(), face_index: 0 };
    let m2 = FontDescriptor::Memory { bytes, face_index: 0 };
    let fp1 = generate_fingerprint(&m1);
    assert_eq!(fp1.len(), 20);
    assert_eq!(fp1, generate_fingerprint(&m2));
}
