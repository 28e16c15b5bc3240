use fontpool::{generate_fingerprint, FontDescriptor, Fonts, GlyphPosition};

fn fingerprint_for(path: &str) -> Vec<u8> {
    generate_fingerprint(&FontDescriptor::Path { path: path.as_bytes().to_vec(), face_index: 0 })
}

fn glyph(id: u32, cluster: u32) -> GlyphPosition {
    GlyphPosition { id, cluster, x_advance: 10, y_advance: 0, x_offset: 0, y_offset: 0 }
}

#[test]
fn refcount_conservation_on_font_handles() {
    let mut fonts = Fonts::new();
    let f = fonts.insert_font(fingerprint_for("/fonts/a.ttf"), String::from("Family A"), 120);
    let id = f.id;
    assert_eq!(fonts.font_count(id), 1);

    // Three duplications followed by three releases restore the count.
    let c1 = fonts.clone_font(&f);
    let c2 = fonts.clone_font(&f);
    let c3 = fonts.clone_font(&c1);
    assert_eq!(fonts.font_count(id), 4);
    fonts.release_font(c3);
    fonts.release_font(c2);
    fonts.release_font(c1);
    assert_eq!(fonts.font_count(id), 1);

    // Releasing the last handle evicts the entry: lookup by id fails.
    fonts.release_font(f);
    assert_eq!(fonts.font_count(id), 0);
    assert!(fonts.font_from_id(id).is_none());
}

#[test]
fn resolving_same_descriptor_twice_dedups() {
    let mut fonts = Fonts::new();
    let descriptor =
        FontDescriptor::Path { path: "/fonts/dedup.ttf".as_bytes().to_vec(), face_index: 2 };

    // First resolution: the fingerprint is unknown, so the font is
    // loaded and inserted with refcount 1.
    let fp1 = generate_fingerprint(&descriptor);
    assert!(fonts.font_id_for_fingerprint(&fp1).is_none());
    let first = fonts.insert_font(fp1, String::from("Dedup"), 64);

    // Second resolution of the same descriptor: same fingerprint, same
    // id, refcount 2 — no second entry.
    let fp2 = generate_fingerprint(&descriptor);
    let hit = fonts.font_id_for_fingerprint(&fp2);
    assert_eq!(hit, Some(first.id));
    let second = fonts.font_from_id(first.id).unwrap();
    assert_eq!(second.id, first.id);
    assert_eq!(fonts.font_count(first.id), 2);

    // A different descriptor still misses.
    let other = fingerprint_for("/fonts/other.ttf");
    assert!(fonts.font_id_for_fingerprint(&other).is_none());

    fonts.release_font(second);
    fonts.release_font(first);
}

#[test]
fn buffer_keeps_font_alive() {
    let mut fonts = Fonts::new();
    let f = fonts.insert_font(fingerprint_for("/fonts/keep.ttf"), String::from("Keep"), 12);
    let id = f.id;

    // The buffer carries a font handle of its own: the font now has two
    // owning references.
    let buffer = f.create_buffer(&mut fonts, String::from("hi"), vec![glyph(5, 0), glyph(6, 1)]);
    assert_eq!(fonts.font_count(id), 2);

    // Dropping every other font handle must not evict the font while the
    // buffer exists.
    fonts.release_font(f);
    assert_eq!(fonts.font_count(id), 1);
    let mut out: Vec<GlyphPosition> = Vec::new();
    buffer.glyphs(&fonts, &mut out);
    assert_eq!(out.len(), 2);

    // A duplicate of the buffer holds the font too.
    let copy = fonts.clone_buffer(&buffer);
    assert_eq!(fonts.font_count(id), 2);
    assert_eq!(fonts.buffer_count(buffer.id()), 2);
    fonts.release_buffer(buffer);
    assert_eq!(fonts.font_count(id), 1);

    // Releasing the last buffer handle releases the last font reference.
    fonts.release_buffer(copy);
    assert_eq!(fonts.font_count(id), 0);
    assert!(fonts.font_from_id(id).is_none());
}

#[test]
fn weak_reference_owns_nothing() {
    let mut fonts = Fonts::new();
    let f = fonts.insert_font(fingerprint_for("/fonts/weak.ttf"), String::from("Weak"), 9);
    let buffer = f.create_buffer(&mut fonts, String::from("x"), vec![glyph(1, 0)]);
    let weak = buffer.weak_ref();
    assert_eq!(weak.id(), buffer.id());
    assert_eq!(weak.font_id(), buffer.font().id);

    // Taking the weak reference changed no counts.
    assert_eq!(fonts.buffer_count(weak.id()), 1);

    let copy = fonts.clone_buffer(&buffer);
    fonts.release_buffer(buffer);
    // One owning handle left: the weak reference still resolves.
    let revived = fonts.buffer_from_id(weak.id()).unwrap();
    assert_eq!(revived.id(), weak.id());
    fonts.release_buffer(revived);

    // After every owning handle is gone, the weak lookup fails.
    fonts.release_buffer(copy);
    fonts.release_font(f);
    assert!(fonts.buffer_from_id(weak.id()).is_none());
    assert_eq!(fonts.buffer_count(weak.id()), 0);
}

#[test]
fn refcount_conservation_on_buffer_handles() {
    let mut fonts = Fonts::new();
    let f = fonts.insert_font(fingerprint_for("/fonts/bufs.ttf"), String::from("Bufs"), 3);
    let buffer = f.create_buffer(&mut fonts, String::from("abc"), vec![glyph(2, 0)]);
    let id = buffer.id();
    assert_eq!(fonts.buffer_count(id), 1);

    let c1 = fonts.clone_buffer(&buffer);
    let c2 = fonts.clone_buffer(&c1);
    assert_eq!(fonts.buffer_count(id), 3);
    fonts.release_buffer(c2);
    fonts.release_buffer(c1);
    assert_eq!(fonts.buffer_count(id), 1);

    fonts.release_buffer(buffer);
    assert_eq!(fonts.buffer_count(id), 0);
    assert!(fonts.buffer_from_id(id).is_none());
    fonts.release_font(f);
}

#[test]
fn buffer_from_id_bumps_both_counters_once() {
    let mut fonts = Fonts::new();
    let f = fonts.insert_font(fingerprint_for("/fonts/two.ttf"), String::from("Two"), 1);
    let buffer = f.create_buffer(&mut fonts, String::from("t"), vec![]);
    assert_eq!(fonts.font_count(f.id), 2);
    assert_eq!(fonts.buffer_count(buffer.id()), 1);

    let again = fonts.buffer_from_id(buffer.id()).unwrap();
    assert_eq!(fonts.font_count(f.id), 3);
    assert_eq!(fonts.buffer_count(buffer.id()), 2);

    fonts.release_buffer(again);
    assert_eq!(fonts.font_count(f.id), 2);
    assert_eq!(fonts.buffer_count(buffer.id()), 1);
    fonts.release_buffer(buffer);
    fonts.release_font(f);
}

#[test]
fn font_slots_are_reused_after_eviction() {
    let mut fonts = Fonts::new();
    let f1 = fonts.insert_font(fingerprint_for("/fonts/first.ttf"), String::from("First"), 1);
    let old_id = f1.id;
    fonts.release_font(f1);
    let f2 = fonts.insert_font(fingerprint_for("/fonts/second.ttf"), String::from("Second"), 2);
    assert_eq!(f2.id, old_id);
    fonts.release_font(f2);
}

#[test]
fn weak_glyph_entry_point_is_inert() {
    let mut fonts = Fonts::new();
    let f = fonts.insert_font(fingerprint_for("/fonts/inert.ttf"), String::from("Inert"), 1);
    let buffer = f.create_buffer(&mut fonts, String::from("z"), vec![glyph(3, 0)]);
    let weak = buffer.weak_ref();
    fonts.glyphs(weak);
    assert_eq!(fonts.buffer_count(buffer.id()), 1);
    assert_eq!(fonts.font_count(f.id), 2);
    fonts.release_buffer(buffer);
    fonts.release_font(f);
}
