use fontpool::{generate_fingerprint, FontDescriptor, Fonts, Transform};

fn fingerprint_for(path: &str) -> Vec<u8> {
    generate_fingerprint(&FontDescriptor::Path { path: path.as_bytes().to_vec(), face_index: 0 })
}

fn translate(tx: i64, ty: i64) -> Transform {
    Transform { m00: 1, m01: 0, m02: 0, m10: 0, m11: 1, m12: 0, m20: tx, m21: ty, m22: 1 }
}

fn scale(s: i64) -> Transform {
    Transform { m00: s, m01: 0, m02: 0, m10: 0, m11: s, m12: 0, m20: 0, m21: 0, m22: 1 }
}

#[test]
fn compose_is_not_commutative_for_translate_and_scale() {
    let t = translate(3, 4);
    let s = scale(2);
    let t_then_s = t.compose(&s);
    let s_then_t = s.compose(&t);
    // Translating first doubles the offset; scaling first keeps it.
    assert_eq!(t_then_s, Transform {
        m00: 2, m01: 0, m02: 0, m10: 0, m11: 2, m12: 0, m20: 6, m21: 8, m22: 1,
    });
    assert_eq!(s_then_t, Transform {
        m00: 2, m01: 0, m02: 0, m10: 0, m11: 2, m12: 0, m20: 3, m21: 4, m22: 1,
    });
    assert_ne!(t_then_s, s_then_t);
}

#[test]
fn buffer_transform_applies_own_before_parent() {
    let mut fonts = Fonts::new();
    let f = fonts.insert_font(fingerprint_for("/fonts/tr.ttf"), String::from("Tr"), 8);
    let buffer = f.create_buffer(&mut fonts, String::from("q"), vec![]);

    // Give the buffer a known non-identity transform and compose with a
    // non-commuting parent: the buffer's own transform must apply first.
    let own = translate(3, 4);
    let parent = scale(2);
    fonts.set_buffer_transform(&buffer, own);
    let composed = buffer.get_buffer_transform(&fonts, &parent);
    assert_eq!(composed, own.compose(&parent));
    assert_ne!(composed, parent.compose(&own));

    fonts.release_buffer(buffer);
    fonts.release_font(f);
}

#[test]
fn new_buffer_has_identity_transform() {
    let mut fonts = Fonts::new();
    let f = fonts.insert_font(fingerprint_for("/fonts/id.ttf"), String::from("Id"), 8);
    let buffer = f.create_buffer(&mut fonts, String::from("q"), vec![]);
    let parent = translate(5, -7);
    let composed = buffer.get_buffer_transform(&fonts, &parent);
    assert_eq!(composed, parent);
    fonts.release_buffer(buffer);
    fonts.release_font(f);
}

#[test]
fn replace_preserves_the_transform() {
    let mut fonts = Fonts::new();
    let f = fonts.insert_font(fingerprint_for("/fonts/keep-tr.ttf"), String::from("KeepTr"), 8);
    let buffer = f.create_buffer(&mut fonts, String::from("a"), vec![]);
    let own = translate(1, 2);
    fonts.set_buffer_transform(&buffer, own);
    fonts.replace(&buffer, String::from("b"), vec![]);
    let composed = buffer.get_buffer_transform(&fonts, &scale(3));
    assert_eq!(composed, own.compose(&scale(3)));
    fonts.release_buffer(buffer);
    fonts.release_font(f);
}

#[test]
fn identity_composes_trivially() {
    let i = Transform::identity();
    let t = translate(9, 11);
    assert_eq!(i.compose(&t), t);
    assert_eq!(t.compose(&i), t);
}
