use vstd::prelude::*;
use crate::transform::{spec_compose, spec_identity, Transform, TransformModel};
use crate::GlyphPosition;
use crate::fingerprint::bytes_eq;

verus! {

/// A loaded font resource: the content fingerprint it is deduplicated
/// under and the facts read from the parsed font.
pub struct FontEntry {
    pub fingerprint: Vec<u8>,
    pub full_name: String,
    pub glyph_count: u32,
}

/// A shaped-text resource bound to one font: the source text, the cached
/// shaped glyph run, and the id of the owning font.
pub struct BufferEntry {
    pub text: String,
    pub glyphs: Vec<GlyphPosition>,
    pub font_id: usize,
}

/// The mathematical value of a live font entry, refcount included.
#[verifier::ext_equal]
pub ghost struct FontModel {
    pub fingerprint: Seq<u8>,
    pub full_name: Seq<char>,
    pub glyph_count: u32,
    pub count: nat,
}

/// The mathematical value of a live buffer entry, refcount included.
#[verifier::ext_equal]
pub ghost struct BufferModel {
    pub text: Seq<char>,
    pub glyphs: Seq<GlyphPosition>,
    pub transform: TransformModel,
    pub font_id: int,
    pub count: nat,
}

/// `f` with its refcount replaced by `count`.
pub open spec fn font_with_count(f: FontModel, count: nat) -> FontModel {
    FontModel {
        fingerprint: f.fingerprint,
        full_name: f.full_name,
        glyph_count: f.glyph_count,
        count,
    }
}

/// `b` with its refcount replaced by `count`.
pub open spec fn buffer_with_count(b: BufferModel, count: nat) -> BufferModel {
    BufferModel {
        text: b.text,
        glyphs: b.glyphs,
        transform: b.transform,
        font_id: b.font_id,
        count,
    }
}

/// One duplication: the entry at `id` gains one reference.
pub open spec fn spec_inc_font(m: Map<int, FontModel>, id: int) -> Map<int, FontModel> {
    m.insert(id, font_with_count(m[id], m[id].count + 1))
}

/// One release: the entry at `id` loses one reference and is evicted the
/// instant the count reaches zero.
pub open spec fn spec_dec_font(m: Map<int, FontModel>, id: int) -> Map<int, FontModel> {
    if m[id].count <= 1 {
        m.remove(id)
    } else {
        m.insert(id, font_with_count(m[id], (m[id].count - 1) as nat))
    }
}

/// One duplication of a buffer entry.
pub open spec fn spec_inc_buffer(m: Map<int, BufferModel>, id: int) -> Map<int, BufferModel> {
    m.insert(id, buffer_with_count(m[id], m[id].count + 1))
}

/// One release of a buffer entry; evicted when the count reaches zero.
pub open spec fn spec_dec_buffer(m: Map<int, BufferModel>, id: int) -> Map<int, BufferModel> {
    if m[id].count <= 1 {
        m.remove(id)
    } else {
        m.insert(id, buffer_with_count(m[id], (m[id].count - 1) as nat))
    }
}

/// No two live font entries share a fingerprint.
pub open spec fn fingerprints_unique(m: Map<int, FontModel>) -> bool {
    forall|i: int, j: int|
        #![trigger m.dom().contains(i), m.dom().contains(j)]
        m.dom().contains(i) && m.dom().contains(j) && i != j ==> m[i].fingerprint
            != m[j].fingerprint
}

/// No live buffer is bound to the font `font_id`.
pub open spec fn no_buffer_refs(m: Map<int, BufferModel>, font_id: int) -> bool {
    forall|b: int| #[trigger] m.dom().contains(b) ==> m[b].font_id != font_id
}

/// Every live buffer other than `buffer_id` is bound to some other font
/// than `font_id`.
pub open spec fn only_buffer_for_font(
    m: Map<int, BufferModel>,
    font_id: int,
    buffer_id: int,
) -> bool {
    forall|b: int| #[trigger] m.dom().contains(b) && m[b].font_id == font_id ==> b == buffer_id
}

/// The shared state behind all handles: a slot table of font resources
/// deduplicated by fingerprint, and a slot table of shaped-text buffers,
/// each slot paired with its refcount.
pub struct FontsContainer {
    fonts: Vec<Option<FontEntry>>,
    font_counts: Vec<usize>,
    buffers: Vec<Option<BufferEntry>>,
    buffer_counts: Vec<usize>,
    buffer_transforms: Vec<Transform>,
}

impl FontsContainer {
    /// The registry as a map from font id to font model.
    pub closed spec fn fonts_map(&self) -> Map<int, FontModel> {
        Map::new(
            |i: int| 0 <= i < self.fonts@.len() && self.fonts@[i] is Some,
            |i: int|
                FontModel {
                    fingerprint: self.fonts@[i]->0.fingerprint@,
                    full_name: self.fonts@[i]->0.full_name@,
                    glyph_count: self.fonts@[i]->0.glyph_count,
                    count: self.font_counts@[i] as nat,
                },
        )
    }

    /// The pool as a map from buffer id to buffer model.
    pub closed spec fn buffers_map(&self) -> Map<int, BufferModel> {
        Map::new(
            |i: int| 0 <= i < self.buffers@.len() && self.buffers@[i] is Some,
            |i: int|
                BufferModel {
                    text: self.buffers@[i]->0.text@,
                    glyphs: self.buffers@[i]->0.glyphs@,
                    transform: self.buffer_transforms@[i].model(),
                    font_id: self.buffers@[i]->0.font_id as int,
                    count: self.buffer_counts@[i] as nat,
                },
        )
    }

    /// Well-formedness: the slot tables and their counts line up, live
    /// entries have positive counts, fingerprints are 20 bytes and unique,
    /// every live buffer is bound to a live font, and every stored
    /// transform is bounded.
    pub closed spec fn wf(&self) -> bool {
        &&& self.fonts@.len() == self.font_counts@.len()
        &&& self.buffers@.len() == self.buffer_counts@.len()
        &&& self.buffers@.len() == self.buffer_transforms@.len()
        &&& forall|i: int|
            0 <= i < self.fonts@.len() ==> ((#[trigger] self.fonts@[i]) is Some <==> self.font_counts@[i]
                >= 1)
        &&& forall|i: int|
            0 <= i < self.fonts@.len() && (#[trigger] self.fonts@[i]) is Some
                ==> self.fonts@[i]->0.fingerprint@.len() == 20
        &&& forall|i: int, j: int|
            #![trigger self.fonts@[i], self.fonts@[j]]
            0 <= i < self.fonts@.len() && 0 <= j < self.fonts@.len() && i != j
                && self.fonts@[i] is Some && self.fonts@[j] is Some ==> self.fonts@[i]->0.fingerprint@
                != self.fonts@[j]->0.fingerprint@
        &&& forall|b: int|
            0 <= b < self.buffers@.len() ==> ((#[trigger] self.buffers@[b]) is Some
                <==> self.buffer_counts@[b] >= 1)
        &&& forall|b: int|
            0 <= b < self.buffers@.len() && (#[trigger] self.buffers@[b]) is Some
                ==> self.buffers@[b]->0.font_id < self.fonts@.len()
                    && self.fonts@[self.buffers@[b]->0.font_id as int] is Some
                    && self.buffer_transforms@[b].bounded()
    }

    /// Facts every consumer of a well-formed container may rely on.
    pub proof fn lemma_wf_facts(&self)
        requires
            self.wf(),
        ensures
            fingerprints_unique(self.fonts_map()),
            forall|i: int| #[trigger]
                self.fonts_map().dom().contains(i) ==> self.fonts_map()[i].count >= 1
                    && self.fonts_map()[i].fingerprint.len() == 20,
            forall|b: int| #[trigger]
                self.buffers_map().dom().contains(b) ==> self.buffers_map()[b].count >= 1
                    && self.fonts_map().dom().contains(self.buffers_map()[b].font_id),
    {
    }

    /// An empty container: no fonts, no buffers.
    pub fn new() -> (r: FontsContainer)
        ensures
            r.wf(),
            r.fonts_map() == Map::<int, FontModel>::empty(),
            r.buffers_map() == Map::<int, BufferModel>::empty(),
    {
        let r = FontsContainer {
            fonts: Vec::new(),
            font_counts: Vec::new(),
            buffers: Vec::new(),
            buffer_counts: Vec::new(),
            buffer_transforms: Vec::new(),
        };
        proof {
            assert(r.fonts_map() =~= Map::<int, FontModel>::empty());
            assert(r.buffers_map() =~= Map::<int, BufferModel>::empty());
        }
        r
    }

    /// Looks up a live font entry by id.
    pub fn get(&self, id: usize) -> (r: Option<&FontEntry>)
        requires
            self.wf(),
        ensures
            match r {
                Some(e) => self.fonts_map().dom().contains(id as int) && e.fingerprint@
                    == self.fonts_map()[id as int].fingerprint && e.full_name@
                    == self.fonts_map()[id as int].full_name && e.glyph_count
                    == self.fonts_map()[id as int].glyph_count,
                None => !self.fonts_map().dom().contains(id as int),
            },
    {
        if id < self.fonts.len() {
            self.fonts[id].as_ref()
        } else {
            None
        }
    }

    /// The refcount of the font entry at `id`; zero when no entry is live.
    pub fn font_count(&self, id: usize) -> (r: usize)
        requires
            self.wf(),
        ensures
            self.fonts_map().dom().contains(id as int) ==> r as nat == self.fonts_map()[id
                as int].count,
            !self.fonts_map().dom().contains(id as int) ==> r == 0,
    {
        if id < self.font_counts.len() {
            self.font_counts[id]
        } else {
            0
        }
    }

    /// The refcount of the buffer entry at `id`; zero when no entry is live.
    pub fn buffer_count(&self, id: usize) -> (r: usize)
        requires
            self.wf(),
        ensures
            self.buffers_map().dom().contains(id as int) ==> r as nat == self.buffers_map()[id
                as int].count,
            !self.buffers_map().dom().contains(id as int) ==> r == 0,
    {
        if id < self.buffer_counts.len() {
            self.buffer_counts[id]
        } else {
            0
        }
    }

    /// The id of the live font entry carrying this fingerprint, if any:
    /// the deduplication lookup.
    pub fn font_id_for_fingerprint(&self, fingerprint: &Vec<u8>) -> (r: Option<usize>)
        requires
            self.wf(),
        ensures
            match r {
                Some(id) => self.fonts_map().dom().contains(id as int) && self.fonts_map()[id
                    as int].fingerprint == fingerprint@,
                None => forall|i: int| #[trigger]
                    self.fonts_map().dom().contains(i) ==> self.fonts_map()[i].fingerprint
                        != fingerprint@,
            },
    {
        let n = self.fonts.len();
        let mut i: usize = 0;
        while i < n
            invariant
                self.wf(),
                i <= n,
                n == self.fonts@.len(),
                forall|j: int|
                    0 <= j < i && (#[trigger] self.fonts@[j]) is Some ==> self.fonts@[j]->0.fingerprint@
                        != fingerprint@,
            decreases n - i,
        {
            match &self.fonts[i] {
                Some(e) => {
                    if bytes_eq(&e.fingerprint, fingerprint) {
                        return Some(i);
                    }
                },
                None => {},
            }
            i = i + 1;
        }
        None
    }

    /// Inserts a freshly loaded font under a fingerprint that is not yet
    /// registered, with refcount 1, and returns its new id.
    pub fn insert_font(&mut self, fingerprint: Vec<u8>, full_name: String, glyph_count: u32) -> (id:
        usize)
        requires
            old(self).wf(),
            fingerprint@.len() == 20,
            forall|i: int| #[trigger]
                old(self).fonts_map().dom().contains(i) ==> old(self).fonts_map()[i].fingerprint
                    != fingerprint@,
        ensures
            final(self).wf(),
            !old(self).fonts_map().dom().contains(id as int),
            final(self).fonts_map() == old(self).fonts_map().insert(
                id as int,
                FontModel {
                    fingerprint: fingerprint@,
                    full_name: full_name@,
                    glyph_count,
                    count: 1 as nat,
                },
            ),
            final(self).buffers_map() == old(self).buffers_map(),
    {
        let ghost target = FontModel {
            fingerprint: fingerprint@,
            full_name: full_name@,
            glyph_count,
            count: 1 as nat,
        };
        proof {
            assert forall|j: int|
                0 <= j < self.fonts@.len() && (#[trigger] self.fonts@[j]) is Some implies self.fonts@[j]->0.fingerprint@
                != fingerprint@ by {
                assert(old(self).fonts_map().dom().contains(j));
            }
        }
        let entry = FontEntry { fingerprint, full_name, glyph_count };
        let slot = self.free_font_slot();
        match slot {
            Some(id) => {
                self.fonts.set(id, Some(entry));
                self.font_counts.set(id, 1);
                proof {
                    assert(self.fonts_map() =~= old(self).fonts_map().insert(id as int, target));
                    assert(self.buffers_map() =~= old(self).buffers_map());
                }
                id
            },
            None => {
                let id = self.fonts.len();
                self.fonts.push(Some(entry));
                self.font_counts.push(1);
                proof {
                    assert(self.fonts_map() =~= old(self).fonts_map().insert(id as int, target));
                    assert(self.buffers_map() =~= old(self).buffers_map());
                }
                id
            },
        }
    }

    /// A vacated font slot available for reuse, if any.
    fn free_font_slot(&self) -> (r: Option<usize>)
        ensures
            match r {
                Some(i) => i < self.fonts@.len() && self.fonts@[i as int] is None,
                None => true,
            },
    {
        let n = self.fonts.len();
        let mut i: usize = 0;
        while i < n
            invariant
                i <= n,
                n == self.fonts@.len(),
            decreases n - i,
        {
            if self.fonts[i].is_none() {
                return Some(i);
            }
            i = i + 1;
        }
        None
    }

    /// A vacated buffer slot available for reuse, if any.
    fn free_buffer_slot(&self) -> (r: Option<usize>)
        ensures
            match r {
                Some(i) => i < self.buffers@.len() && self.buffers@[i as int] is None,
                None => true,
            },
    {
        let n = self.buffers.len();
        let mut i: usize = 0;
        while i < n
            invariant
                i <= n,
                n == self.buffers@.len(),
            decreases n - i,
        {
            if self.buffers[i].is_none() {
                return Some(i);
            }
            i = i + 1;
        }
        None
    }

    /// Adds one reference to a live font entry.
    pub fn inc_font(&mut self, id: usize)
        requires
            old(self).wf(),
            old(self).fonts_map().dom().contains(id as int),
            old(self).fonts_map()[id as int].count < usize::MAX,
        ensures
            final(self).wf(),
            final(self).fonts_map() == spec_inc_font(old(self).fonts_map(), id as int),
            final(self).buffers_map() == old(self).buffers_map(),
    {
        let c = self.font_counts[id];
        self.font_counts.set(id, c + 1);
        proof {
            assert(self.fonts_map() =~= spec_inc_font(old(self).fonts_map(), id as int));
            assert(self.buffers_map() =~= old(self).buffers_map());
        }
    }

    /// Looks a font up by id, adding one reference when it is live.
    pub fn get_and_inc_font(&mut self, id: usize) -> (r: Option<usize>)
        requires
            old(self).wf(),
            old(self).fonts_map().dom().contains(id as int) ==> old(self).fonts_map()[id
                as int].count < usize::MAX,
        ensures
            final(self).wf(),
            match r {
                Some(rid) => rid == id && old(self).fonts_map().dom().contains(id as int) && final(self).fonts_map() == spec_inc_font(old(self).fonts_map(), id as int),
                None => !old(self).fonts_map().dom().contains(id as int) && final(self).fonts_map()
                    == old(self).fonts_map(),
            },
            final(self).buffers_map() == old(self).buffers_map(),
    {
        if id < self.fonts.len() && self.fonts[id].is_some() {
            self.inc_font(id);
            Some(id)
        } else {
            proof {
                assert(self.fonts_map() =~= old(self).fonts_map());
                assert(self.buffers_map() =~= old(self).buffers_map());
            }
            None
        }
    }

    /// Removes one reference from a live font entry; at zero the entry is
    /// removed.  The caller must not orphan a buffer: the last reference
    /// can only go when no live buffer is bound to this font.
    pub fn dec_font(&mut self, id: usize)
        requires
            old(self).wf(),
            old(self).fonts_map().dom().contains(id as int),
            old(self).fonts_map()[id as int].count > 1 || no_buffer_refs(
                old(self).buffers_map(),
                id as int,
            ),
        ensures
            final(self).wf(),
            final(self).fonts_map() == spec_dec_font(old(self).fonts_map(), id as int),
            final(self).buffers_map() == old(self).buffers_map(),
    {
        let c = self.font_counts[id];
        if c <= 1 {
            self.delete_font(id);
        } else {
            self.font_counts.set(id, c - 1);
            proof {
                assert(self.fonts_map() =~= spec_dec_font(old(self).fonts_map(), id as int));
                assert(self.buffers_map() =~= old(self).buffers_map());
            }
        }
    }

    /// Removes a live font entry outright, whatever its count.  Only legal
    /// when no live buffer is bound to it.
    pub fn delete_font(&mut self, id: usize)
        requires
            old(self).wf(),
            old(self).fonts_map().dom().contains(id as int),
            no_buffer_refs(old(self).buffers_map(), id as int),
        ensures
            final(self).wf(),
            final(self).fonts_map() == old(self).fonts_map().remove(id as int),
            final(self).buffers_map() == old(self).buffers_map(),
    {
        proof {
            assert forall|b: int|
                0 <= b < self.buffers@.len() && (#[trigger] self.buffers@[b]) is Some implies self.buffers@[b]->0.font_id
                != id by {
                assert(old(self).buffers_map().dom().contains(b));
            }
        }
        self.fonts.set(id, None);
        self.font_counts.set(id, 0);
        proof {
            assert(self.fonts_map() =~= old(self).fonts_map().remove(id as int));
            assert(self.buffers_map() =~= old(self).buffers_map());
        }
    }

    /// Creates a buffer bound to a live font: the text, its shaped glyph
    /// run, the identity transform, refcount 1.
    pub fn create_buffer(&mut self, font_id: usize, text: String, shaped: Vec<GlyphPosition>) -> (
        id: usize)
        requires
            old(self).wf(),
            old(self).fonts_map().dom().contains(font_id as int),
        ensures
            final(self).wf(),
            !old(self).buffers_map().dom().contains(id as int),
            final(self).buffers_map() == old(self).buffers_map().insert(
                id as int,
                BufferModel {
                    text: text@,
                    glyphs: shaped@,
                    transform: spec_identity(),
                    font_id: font_id as int,
                    count: 1 as nat,
                },
            ),
            final(self).fonts_map() == old(self).fonts_map(),
    {
        let ghost target = BufferModel {
            text: text@,
            glyphs: shaped@,
            transform: spec_identity(),
            font_id: font_id as int,
            count: 1 as nat,
        };
        let entry = BufferEntry { text, glyphs: shaped, font_id };
        let transform = Transform::identity();
        let slot = self.free_buffer_slot();
        match slot {
            Some(id) => {
                self.buffers.set(id, Some(entry));
                self.buffer_counts.set(id, 1);
                self.buffer_transforms.set(id, transform);
                proof {
                    assert(self.buffers_map() =~= old(self).buffers_map().insert(
                        id as int,
                        target,
                    ));
                    assert(self.fonts_map() =~= old(self).fonts_map());
                }
                id
            },
            None => {
                let id = self.buffers.len();
                self.buffers.push(Some(entry));
                self.buffer_counts.push(1);
                self.buffer_transforms.push(transform);
                proof {
                    assert(self.buffers_map() =~= old(self).buffers_map().insert(
                        id as int,
                        target,
                    ));
                    assert(self.fonts_map() =~= old(self).fonts_map());
                }
                id
            },
        }
    }

    /// Adds one reference to a live buffer entry.
    pub fn inc_buffer(&mut self, id: usize)
        requires
            old(self).wf(),
            old(self).buffers_map().dom().contains(id as int),
            old(self).buffers_map()[id as int].count < usize::MAX,
        ensures
            final(self).wf(),
            final(self).buffers_map() == spec_inc_buffer(old(self).buffers_map(), id as int),
            final(self).fonts_map() == old(self).fonts_map(),
    {
        let c = self.buffer_counts[id];
        self.buffer_counts.set(id, c + 1);
        proof {
            assert(self.buffers_map() =~= spec_inc_buffer(old(self).buffers_map(), id as int));
            assert(self.fonts_map() =~= old(self).fonts_map());
        }
    }

    /// Looks a buffer up by id, adding one reference when it is live, and
    /// returns the owning font id alongside the buffer id.
    pub fn get_and_inc_buffer(&mut self, id: usize) -> (r: Option<(usize, usize)>)
        requires
            old(self).wf(),
            old(self).buffers_map().dom().contains(id as int) ==> old(self).buffers_map()[id
                as int].count < usize::MAX,
        ensures
            final(self).wf(),
            match r {
                Some(p) => p.1 == id && old(self).buffers_map().dom().contains(id as int) && p.0
                    as int == old(self).buffers_map()[id as int].font_id && final(self).buffers_map() == spec_inc_buffer(old(self).buffers_map(), id as int),
                None => !old(self).buffers_map().dom().contains(id as int) && final(self).buffers_map() == old(self).buffers_map(),
            },
            final(self).fonts_map() == old(self).fonts_map(),
    {
        if id < self.buffers.len() {
            let font_id = match &self.buffers[id] {
                Some(e) => e.font_id,
                None => {
                    proof {
                        assert(self.buffers_map() =~= old(self).buffers_map());
                        assert(self.fonts_map() =~= old(self).fonts_map());
                    }
                    return None;
                },
            };
            self.inc_buffer(id);
            Some((font_id, id))
        } else {
            proof {
                assert(self.buffers_map() =~= old(self).buffers_map());
                assert(self.fonts_map() =~= old(self).fonts_map());
            }
            None
        }
    }

    /// Removes one reference from a live buffer entry; at zero the entry
    /// is removed.
    pub fn dec_buffer(&mut self, id: usize)
        requires
            old(self).wf(),
            old(self).buffers_map().dom().contains(id as int),
        ensures
            final(self).wf(),
            final(self).buffers_map() == spec_dec_buffer(old(self).buffers_map(), id as int),
            final(self).fonts_map() == old(self).fonts_map(),
    {
        let c = self.buffer_counts[id];
        if c <= 1 {
            self.delete_buffer(id);
        } else {
            self.buffer_counts.set(id, c - 1);
            proof {
                assert(self.buffers_map() =~= spec_dec_buffer(old(self).buffers_map(), id as int));
                assert(self.fonts_map() =~= old(self).fonts_map());
            }
        }
    }

    /// Removes a live buffer entry outright, whatever its count.
    pub fn delete_buffer(&mut self, id: usize)
        requires
            old(self).wf(),
            old(self).buffers_map().dom().contains(id as int),
        ensures
            final(self).wf(),
            final(self).buffers_map() == old(self).buffers_map().remove(id as int),
            final(self).fonts_map() == old(self).fonts_map(),
    {
        self.buffers.set(id, None);
        self.buffer_counts.set(id, 0);
        proof {
            assert(self.buffers_map() =~= old(self).buffers_map().remove(id as int));
            assert(self.fonts_map() =~= old(self).fonts_map());
        }
    }

    /// Overwrites a live buffer's text with freshly shaped output, in
    /// place: id, refcount, transform and owning font are all preserved.
    pub fn replace(&mut self, buffer_id: usize, text: String, shaped: Vec<GlyphPosition>)
        requires
            old(self).wf(),
            old(self).buffers_map().dom().contains(buffer_id as int),
        ensures
            final(self).wf(),
            final(self).buffers_map() == old(self).buffers_map().insert(
                buffer_id as int,
                BufferModel {
                    text: text@,
                    glyphs: shaped@,
                    transform: old(self).buffers_map()[buffer_id as int].transform,
                    font_id: old(self).buffers_map()[buffer_id as int].font_id,
                    count: old(self).buffers_map()[buffer_id as int].count,
                },
            ),
            final(self).fonts_map() == old(self).fonts_map(),
    {
        let font_id = match &self.buffers[buffer_id] {
            Some(e) => e.font_id,
            None => {
                proof {
                    assert(false);
                }
                0
            },
        };
        self.buffers.set(buffer_id, Some(BufferEntry { text, glyphs: shaped, font_id }));
        proof {
            assert(self.buffers_map() =~= old(self).buffers_map().insert(
                buffer_id as int,
                BufferModel {
                    text: text@,
                    glyphs: shaped@,
                    transform: old(self).buffers_map()[buffer_id as int].transform,
                    font_id: old(self).buffers_map()[buffer_id as int].font_id,
                    count: old(self).buffers_map()[buffer_id as int].count,
                },
            ));
            assert(self.fonts_map() =~= old(self).fonts_map());
        }
    }

    /// Sets a live buffer's own transform.
    pub fn set_buffer_transform(&mut self, buffer_id: usize, transform: Transform)
        requires
            old(self).wf(),
            old(self).buffers_map().dom().contains(buffer_id as int),
            transform.bounded(),
        ensures
            final(self).wf(),
            final(self).buffers_map() == old(self).buffers_map().insert(
                buffer_id as int,
                BufferModel {
                    text: old(self).buffers_map()[buffer_id as int].text,
                    glyphs: old(self).buffers_map()[buffer_id as int].glyphs,
                    transform: transform.model(),
                    font_id: old(self).buffers_map()[buffer_id as int].font_id,
                    count: old(self).buffers_map()[buffer_id as int].count,
                },
            ),
            final(self).fonts_map() == old(self).fonts_map(),
    {
        self.buffer_transforms.set(buffer_id, transform);
        proof {
            assert(self.buffers_map() =~= old(self).buffers_map().insert(
                buffer_id as int,
                BufferModel {
                    text: old(self).buffers_map()[buffer_id as int].text,
                    glyphs: old(self).buffers_map()[buffer_id as int].glyphs,
                    transform: transform.model(),
                    font_id: old(self).buffers_map()[buffer_id as int].font_id,
                    count: old(self).buffers_map()[buffer_id as int].count,
                },
            ));
            assert(self.fonts_map() =~= old(self).fonts_map());
        }
    }

    /// The buffer's own transform composed with a parent transform: the
    /// buffer's is applied first, the parent's second.
    pub fn get_buffer_transform(&self, buffer_id: usize, parent: &Transform) -> (r: Transform)
        requires
            self.wf(),
            self.buffers_map().dom().contains(buffer_id as int),
            parent.bounded(),
        ensures
            r.model() == spec_compose(self.buffers_map()[buffer_id as int].transform, parent.model()),
    {
        self.buffer_transforms[buffer_id].compose(parent)
    }

    /// Appends the cached shaped glyph run of a live buffer to `output`,
    /// in shaping order.
    pub fn buffer_glyphs(&self, buffer_id: usize, output: &mut Vec<GlyphPosition>)
        requires
            self.wf(),
            self.buffers_map().dom().contains(buffer_id as int),
        ensures
            final(output)@ == old(output)@ + self.buffers_map()[buffer_id as int].glyphs,
    {
        let entry = match &self.buffers[buffer_id] {
            Some(e) => e,
            None => {
                proof {
                    assert(false);
                }
                return ;
            },
        };
        let n = entry.glyphs.len();
        let mut i: usize = 0;
        while i < n
            invariant
                i <= n,
                n == entry.glyphs@.len(),
                output@ == old(output)@ + entry.glyphs@.subrange(0, i as int),
            decreases n - i,
        {
            output.push(entry.glyphs[i]);
            proof {
                assert(output@ =~= old(output)@ + entry.glyphs@.subrange(0, i + 1));
            }
            i = i + 1;
        }
        proof {
            assert(entry.glyphs@.subrange(0, n as int) =~= entry.glyphs@);
        }
    }
}

} // verus!
