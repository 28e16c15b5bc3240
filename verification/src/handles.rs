use vstd::prelude::*;
use crate::container::{
    no_buffer_refs, only_buffer_for_font, spec_dec_buffer, spec_dec_font, spec_inc_buffer,
    spec_inc_font, BufferModel, FontModel, FontsContainer,
};
use crate::transform::{spec_compose, spec_identity, Transform};
use crate::GlyphPosition;

verus! {

/// The facade owning the shared font registry and buffer pool.  Handles
/// are plain values; duplicating or releasing one goes through the
/// facade, which adjusts the refcounts.
pub struct Fonts {
    container: FontsContainer,
}

/// An owning reference to a font entry: one unit of that entry's
/// refcount.  Duplicate with `Fonts::clone_font`, release with
/// `Fonts::release_font`.
pub struct Font {
    pub id: usize,
}

/// An owning reference to a buffer entry, carrying its own font handle so
/// the backing font outlives the buffer.
pub struct Buffer {
    pub _font: Font,
    pub _id: usize,
}

/// A non-owning (font id, buffer id) pair for cross-component
/// addressing.  Holding one keeps nothing alive; looking it up may
/// legitimately fail after the owning handles are gone.
#[derive(Debug, Copy, Clone)]
pub struct BufferRef {
    pub _font_id: usize,
    pub _id: usize,
}

impl Fonts {
    /// The registry as a map from font id to font model.
    pub closed spec fn fonts_map(&self) -> Map<int, FontModel> {
        self.container.fonts_map()
    }

    /// The pool as a map from buffer id to buffer model.
    pub closed spec fn buffers_map(&self) -> Map<int, BufferModel> {
        self.container.buffers_map()
    }

    pub closed spec fn wf(&self) -> bool {
        self.container.wf()
    }

    /// An empty facade: nothing loaded, nothing shaped.
    pub fn new() -> (r: Fonts)
        ensures
            r.wf(),
            r.fonts_map() == Map::<int, FontModel>::empty(),
            r.buffers_map() == Map::<int, BufferModel>::empty(),
    {
        Fonts { container: FontsContainer::new() }
    }

    /// The id of the registered font carrying this fingerprint, if any.
    pub fn font_id_for_fingerprint(&self, fingerprint: &Vec<u8>) -> (r: Option<usize>)
        requires
            self.wf(),
        ensures
            match r {
                Some(id) => self.fonts_map().dom().contains(id as int) && self.fonts_map()[id
                    as int].fingerprint == fingerprint@,
                None => forall|i: int| #[trigger]
                    self.fonts_map().dom().contains(i) ==> self.fonts_map()[i].fingerprint
                        != fingerprint@,
            },
    {
        self.container.font_id_for_fingerprint(fingerprint)
    }

    /// Registers a freshly loaded font under a fingerprint that is not
    /// yet registered and hands out its first owning handle.
    pub fn insert_font(&mut self, fingerprint: Vec<u8>, full_name: String, glyph_count: u32) -> (f:
        Font)
        requires
            old(self).wf(),
            fingerprint@.len() == 20,
            forall|i: int| #[trigger]
                old(self).fonts_map().dom().contains(i) ==> old(self).fonts_map()[i].fingerprint
                    != fingerprint@,
        ensures
            final(self).wf(),
            !old(self).fonts_map().dom().contains(f.id as int),
            final(self).fonts_map() == old(self).fonts_map().insert(
                f.id as int,
                FontModel {
                    fingerprint: fingerprint@,
                    full_name: full_name@,
                    glyph_count,
                    count: 1 as nat,
                },
            ),
            final(self).buffers_map() == old(self).buffers_map(),
    {
        proof {
            assert forall|i: int| #[trigger]
                old(self).container.fonts_map().dom().contains(i) implies old(
                self,
            ).container.fonts_map()[i].fingerprint != fingerprint@ by {
                assert(old(self).fonts_map().dom().contains(i));
            }
        }
        let id = self.container.insert_font(fingerprint, full_name, glyph_count);
        Font { id }
    }

    /// Hands out one more owning handle to a live font, by raw id.
    pub fn font_from_id(&mut self, id: usize) -> (r: Option<Font>)
        requires
            old(self).wf(),
            old(self).fonts_map().dom().contains(id as int) ==> old(self).fonts_map()[id
                as int].count < usize::MAX,
        ensures
            final(self).wf(),
            match r {
                Some(f) => f.id == id && old(self).fonts_map().dom().contains(id as int) && final(self).fonts_map() == spec_inc_font(old(self).fonts_map(), id as int),
                None => !old(self).fonts_map().dom().contains(id as int) && final(self).fonts_map()
                    == old(self).fonts_map(),
            },
            final(self).buffers_map() == old(self).buffers_map(),
    {
        match self.container.get_and_inc_font(id) {
            Some(id) => Some(Font { id }),
            None => None,
        }
    }

    /// Hands out one more owning handle to a live buffer, by raw id; the
    /// new handle carries its own new font handle, so both refcounts rise
    /// by one, independently.
    pub fn buffer_from_id(&mut self, buffer_id: usize) -> (r: Option<Buffer>)
        requires
            old(self).wf(),
            old(self).buffers_map().dom().contains(buffer_id as int) ==> old(self).buffers_map()[
                buffer_id as int].count < usize::MAX && old(self).fonts_map()[old(self).buffers_map()[buffer_id as int].font_id].count < usize::MAX,
        ensures
            final(self).wf(),
            match r {
                Some(b) => {
                    &&& old(self).buffers_map().dom().contains(buffer_id as int)
                    &&& b._id == buffer_id
                    &&& b._font.id as int == old(self).buffers_map()[buffer_id as int].font_id
                    &&& final(self).buffers_map() == spec_inc_buffer(
                        old(self).buffers_map(),
                        buffer_id as int,
                    )
                    &&& final(self).fonts_map() == spec_inc_font(
                        old(self).fonts_map(),
                        old(self).buffers_map()[buffer_id as int].font_id,
                    )
                },
                None => {
                    &&& !old(self).buffers_map().dom().contains(buffer_id as int)
                    &&& final(self).buffers_map() == old(self).buffers_map()
                    &&& final(self).fonts_map() == old(self).fonts_map()
                },
            },
    {
        proof {
            self.container.lemma_wf_facts();
        }
        match self.container.get_and_inc_buffer(buffer_id) {
            None => None,
            Some((font_id, bid)) => {
                proof {
                    self.container.lemma_wf_facts();
                }
                match self.container.get_and_inc_font(font_id) {
                    Some(fid) => Some(Buffer { _font: Font { id: fid }, _id: bid }),
                    None => {
                        proof {
                            assert(false);
                        }
                        None
                    },
                }
            },
        }
    }

    /// Duplicates an owning font handle: the entry gains one reference.
    pub fn clone_font(&mut self, f: &Font) -> (r: Font)
        requires
            old(self).wf(),
            old(self).fonts_map().dom().contains(f.id as int),
            old(self).fonts_map()[f.id as int].count < usize::MAX,
        ensures
            final(self).wf(),
            r.id == f.id,
            final(self).fonts_map() == spec_inc_font(old(self).fonts_map(), f.id as int),
            final(self).buffers_map() == old(self).buffers_map(),
    {
        self.container.inc_font(f.id);
        Font { id: f.id }
    }

    /// Releases an owning font handle: the entry loses one reference and
    /// is evicted at zero.  The last reference can only go when no live
    /// buffer is bound to the font.
    pub fn release_font(&mut self, f: Font)
        requires
            old(self).wf(),
            old(self).fonts_map().dom().contains(f.id as int),
            old(self).fonts_map()[f.id as int].count > 1 || no_buffer_refs(
                old(self).buffers_map(),
                f.id as int,
            ),
        ensures
            final(self).wf(),
            final(self).fonts_map() == spec_dec_font(old(self).fonts_map(), f.id as int),
            final(self).buffers_map() == old(self).buffers_map(),
    {
        self.container.dec_font(f.id);
    }

    /// Duplicates an owning buffer handle.  The buffer gains one
    /// reference, and so does its font — the copy carries a font handle of
    /// its own; the two counters are bumped separately, once each.
    pub fn clone_buffer(&mut self, b: &Buffer) -> (r: Buffer)
        requires
            old(self).wf(),
            old(self).buffers_map().dom().contains(b._id as int),
            b._font.id as int == old(self).buffers_map()[b._id as int].font_id,
            old(self).buffers_map()[b._id as int].count < usize::MAX,
            old(self).fonts_map()[b._font.id as int].count < usize::MAX,
        ensures
            final(self).wf(),
            r._id == b._id && r._font.id == b._font.id,
            final(self).buffers_map() == spec_inc_buffer(old(self).buffers_map(), b._id as int),
            final(self).fonts_map() == spec_inc_font(old(self).fonts_map(), b._font.id as int),
    {
        proof {
            self.container.lemma_wf_facts();
        }
        self.container.inc_buffer(b._id);
        self.container.inc_font(b._font.id);
        Buffer { _font: Font { id: b._font.id }, _id: b._id }
    }

    /// Releases an owning buffer handle: the buffer loses one reference,
    /// and the font handle carried inside is released as well — once
    /// each, never double-counted.
    pub fn release_buffer(&mut self, b: Buffer)
        requires
            old(self).wf(),
            old(self).buffers_map().dom().contains(b._id as int),
            b._font.id as int == old(self).buffers_map()[b._id as int].font_id,
            old(self).fonts_map()[b._font.id as int].count > 1 || (old(self).buffers_map()[b._id
                as int].count == 1 && only_buffer_for_font(
                old(self).buffers_map(),
                b._font.id as int,
                b._id as int,
            )),
        ensures
            final(self).wf(),
            final(self).buffers_map() == spec_dec_buffer(old(self).buffers_map(), b._id as int),
            final(self).fonts_map() == spec_dec_font(old(self).fonts_map(), b._font.id as int),
    {
        proof {
            self.container.lemma_wf_facts();
        }
        self.container.dec_buffer(b._id);
        proof {
            if !(old(self).fonts_map()[b._font.id as int].count > 1) {
                assert forall|b2: int| #[trigger]
                    self.container.buffers_map().dom().contains(b2) implies self.container.buffers_map()[b2].font_id
                    != b._font.id as int by {
                    assert(old(self).buffers_map().dom().contains(b2) && b2 != b._id as int);
                }
            }
        }
        self.container.dec_font(b._font.id);
    }

    /// Overwrites a live buffer's text with freshly shaped output, in
    /// place: id, refcount, transform and owning font are all preserved,
    /// and later glyph queries reflect the new text's run.
    pub fn replace(&mut self, b: &Buffer, text: String, shaped: Vec<GlyphPosition>)
        requires
            old(self).wf(),
            old(self).buffers_map().dom().contains(b._id as int),
        ensures
            final(self).wf(),
            final(self).buffers_map() == old(self).buffers_map().insert(
                b._id as int,
                BufferModel {
                    text: text@,
                    glyphs: shaped@,
                    transform: old(self).buffers_map()[b._id as int].transform,
                    font_id: old(self).buffers_map()[b._id as int].font_id,
                    count: old(self).buffers_map()[b._id as int].count,
                },
            ),
            final(self).fonts_map() == old(self).fonts_map(),
    {
        self.container.replace(b._id, text, shaped);
    }

    /// Sets a live buffer's own transform.
    pub fn set_buffer_transform(&mut self, b: &Buffer, transform: Transform)
        requires
            old(self).wf(),
            old(self).buffers_map().dom().contains(b._id as int),
            transform.bounded(),
        ensures
            final(self).wf(),
            final(self).buffers_map() == old(self).buffers_map().insert(
                b._id as int,
                BufferModel {
                    text: old(self).buffers_map()[b._id as int].text,
                    glyphs: old(self).buffers_map()[b._id as int].glyphs,
                    transform: transform.model(),
                    font_id: old(self).buffers_map()[b._id as int].font_id,
                    count: old(self).buffers_map()[b._id as int].count,
                },
            ),
            final(self).fonts_map() == old(self).fonts_map(),
    {
        self.container.set_buffer_transform(b._id, transform);
    }

    /// The refcount of the font entry at `id`; zero when none is live.
    pub fn font_count(&self, id: usize) -> (r: usize)
        requires
            self.wf(),
        ensures
            self.fonts_map().dom().contains(id as int) ==> r as nat == self.fonts_map()[id
                as int].count,
            !self.fonts_map().dom().contains(id as int) ==> r == 0,
    {
        self.container.font_count(id)
    }

    /// The refcount of the buffer entry at `id`; zero when none is live.
    pub fn buffer_count(&self, id: usize) -> (r: usize)
        requires
            self.wf(),
        ensures
            self.buffers_map().dom().contains(id as int) ==> r as nat == self.buffers_map()[id
                as int].count,
            !self.buffers_map().dom().contains(id as int) ==> r == 0,
    {
        self.container.buffer_count(id)
    }

    /// Reserved entry point for glyph queries through a weak reference;
    /// deliberately does nothing.
    pub fn glyphs(&self, _buffer: BufferRef) {
    }
}

impl Font {
    /// The full display name of the backing font.
    pub fn full_name(&self, fonts: &Fonts) -> (r: String)
        requires
            fonts.wf(),
            fonts.fonts_map().dom().contains(self.id as int),
        ensures
            r@ == fonts.fonts_map()[self.id as int].full_name,
    {
        match fonts.container.get(self.id) {
            Some(e) => e.full_name.clone(),
            None => {
                proof {
                    assert(false);
                }
                String::new()
            },
        }
    }

    /// The number of glyphs in the backing font.
    pub fn glyph_count(&self, fonts: &Fonts) -> (r: u32)
        requires
            fonts.wf(),
            fonts.fonts_map().dom().contains(self.id as int),
        ensures
            r == fonts.fonts_map()[self.id as int].glyph_count,
    {
        match fonts.container.get(self.id) {
            Some(e) => e.glyph_count,
            None => {
                proof {
                    assert(false);
                }
                0
            },
        }
    }

    /// Creates a buffer from this font: the shaped run for `text` is
    /// stored eagerly, with the identity transform and refcount 1, and
    /// the new buffer carries its own handle to this font, so the font
    /// gains one reference.
    pub fn create_buffer(&self, fonts: &mut Fonts, text: String, shaped: Vec<GlyphPosition>) -> (r:
        Buffer)
        requires
            old(fonts).wf(),
            old(fonts).fonts_map().dom().contains(self.id as int),
            old(fonts).fonts_map()[self.id as int].count < usize::MAX,
        ensures
            final(fonts).wf(),
            r._font.id == self.id,
            !old(fonts).buffers_map().dom().contains(r._id as int),
            final(fonts).buffers_map() == old(fonts).buffers_map().insert(
                r._id as int,
                BufferModel {
                    text: text@,
                    glyphs: shaped@,
                    transform: spec_identity(),
                    font_id: self.id as int,
                    count: 1 as nat,
                },
            ),
            final(fonts).fonts_map() == spec_inc_font(old(fonts).fonts_map(), self.id as int),
    {
        fonts.container.inc_font(self.id);
        let id = fonts.container.create_buffer(self.id, text, shaped);
        Buffer { _font: Font { id: self.id }, _id: id }
    }
}

impl Buffer {
    /// The non-owning (font id, buffer id) pair addressing this buffer.
    pub fn weak_ref(&self) -> (r: BufferRef)
        ensures
            r._font_id == self._font.id,
            r._id == self._id,
    {
        BufferRef { _font_id: self._font.id, _id: self._id }
    }

    /// The font handle carried inside this buffer.
    pub fn font(&self) -> (r: &Font)
        ensures
            r.id == self._font.id,
    {
        &self._font
    }

    /// Appends this buffer's cached shaped glyph run to `output`, in
    /// shaping order; repeated calls without a `replace` append the same
    /// run again.
    pub fn glyphs(&self, fonts: &Fonts, output: &mut Vec<GlyphPosition>)
        requires
            fonts.wf(),
            fonts.buffers_map().dom().contains(self._id as int),
        ensures
            final(output)@ == old(output)@ + fonts.buffers_map()[self._id as int].glyphs,
    {
        fonts.container.buffer_glyphs(self._id, output);
    }

    /// The pool id of this buffer.
    pub fn id(&self) -> (r: usize)
        ensures
            r == self._id,
    {
        self._id
    }

    /// This buffer's own transform composed with a parent transform: the
    /// buffer's own transform applies first, the parent's second.
    pub fn get_buffer_transform(&self, fonts: &Fonts, parent: &Transform) -> (r: Transform)
        requires
            fonts.wf(),
            fonts.buffers_map().dom().contains(self._id as int),
            parent.bounded(),
        ensures
            r.model() == spec_compose(
                fonts.buffers_map()[self._id as int].transform,
                parent.model(),
            ),
    {
        fonts.container.get_buffer_transform(self._id, parent)
    }
}

impl BufferRef {
    /// The id of the font the referenced buffer was bound to.
    pub fn font_id(&self) -> (r: usize)
        ensures
            r == self._font_id,
    {
        self._font_id
    }

    /// The id of the referenced buffer.
    pub fn id(&self) -> (r: usize)
        ensures
            r == self._id,
    {
        self._id
    }
}

} // verus!
