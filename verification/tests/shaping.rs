use fontpool::{generate_fingerprint, FontDescriptor, Fonts, GlyphPosition};

fn fingerprint_for(path: &str) -> Vec<u8> {
    generate_fingerprint(&FontDescriptor::Path { path: path.as_bytes().to_vec(), face_index: 0 })
}

fn glyph(id: u32, cluster: u32, x_advance: i32) -> GlyphPosition {
    GlyphPosition { id, cluster, x_advance, y_advance: 0, x_offset: 0, y_offset: 0 }
}

#[test]
fn replace_reshapes_in_place() {
    let mut fonts = Fonts::new();
    let f = fonts.insert_font(fingerprint_for("/fonts/shape.ttf"), String::from("Shape"), 200);

    // A buffer shaped for "AB".
    let run_ab = vec![glyph(34, 0, 11), glyph(35, 1, 12)];
    let buffer = f.create_buffer(&mut fonts, String::from("AB"), run_ab.clone());
    let id_before = buffer.id();
    let mut out: Vec<GlyphPosition> = Vec::new();
    buffer.glyphs(&fonts, &mut out);
    assert_eq!(out, run_ab);

    // Replacing the text with "ABC" re-shapes in place: the id is
    // unchanged and later glyph queries reflect the new run.
    let run_abc = vec![glyph(34, 0, 11), glyph(35, 1, 12), glyph(36, 2, 13)];
    fonts.replace(&buffer, String::from("ABC"), run_abc.clone());
    assert_eq!(buffer.id(), id_before);
    let mut out2: Vec<GlyphPosition> = Vec::new();
    buffer.glyphs(&fonts, &mut out2);
    assert_eq!(out2, run_abc);

    fonts.release_buffer(buffer);
    fonts.release_font(f);
}

#[test]
fn glyph_queries_are_idempotent_and_appending() {
    let mut fonts = Fonts::new();
    let f = fonts.insert_font(fingerprint_for("/fonts/idem.ttf"), String::from("Idem"), 10);
    let run = vec![glyph(7, 0, 5)];
    let buffer = f.create_buffer(&mut fonts, String::from("g"), run.clone());

    // Repeated queries without a replace return the same run; the call
    // appends to the output it is given.
    let mut out: Vec<GlyphPosition> = Vec::new();
    buffer.glyphs(&fonts, &mut out);
    buffer.glyphs(&fonts, &mut out);
    assert_eq!(out.len(), 2);
    assert_eq!(out[0], run[0]);
    assert_eq!(out[1], run[0]);

    fonts.release_buffer(buffer);
    fonts.release_font(f);
}

#[test]
fn font_accessors_report_loaded_facts() {
    let mut fonts = Fonts::new();
    let f = fonts.insert_font(
        fingerprint_for("/fonts/name.ttf"),
        String::from("Some Family Regular"),
        1042,
    );
    assert_eq!(f.full_name(&fonts), "Some Family Regular");
    assert_eq!(f.glyph_count(&fonts), 1042);
    fonts.release_font(f);
}

#[test]
fn two_buffers_from_one_call_pattern_are_independent() {
    // Buffer creation never deduplicates: two creations with the same
    // text give two entries with their own ids and counts.
    let mut fonts = Fonts::new();
    let f = fonts.insert_font(fingerprint_for("/fonts/ind.ttf"), String::from("Ind"), 4);
    let b1 = f.create_buffer(&mut fonts, String::from("same"), vec![glyph(1, 0, 1)]);
    let b2 = f.create_buffer(&mut fonts, String::from("same"), vec![glyph(1, 0, 1)]);
    assert_ne!(b1.id(), b2.id());
    assert_eq!(fonts.buffer_count(b1.id()), 1);
    assert_eq!(fonts.buffer_count(b2.id()), 1);
    assert_eq!(fonts.font_count(f.id), 3);
    fonts.release_buffer(b1);
    fonts.release_buffer(b2);
    fonts.release_font(f);
}

#[test]
fn buffer_slots_are_reused_after_eviction() {
    let mut fonts = Fonts::new();
    let f = fonts.insert_font(fingerprint_for("/fonts/slot.ttf"), String::from("Slot"), 4);
    let b1 = f.create_buffer(&mut fonts, String::from("one"), vec![]);
    let old_id = b1.id();
    fonts.release_buffer(b1);
    let b2 = f.create_buffer(&mut fonts, String::from("two"), vec![]);
    assert_eq!(b2.id(), old_id);
    fonts.release_buffer(b2);
    fonts.release_font(f);
}
