use vstd::prelude::*;
use crate::container::{
    buffer_with_count, fingerprints_unique, font_with_count, spec_dec_buffer, spec_dec_font,
    spec_inc_buffer, spec_inc_font, BufferModel, FontModel,
};

verus! {

/// `n` duplications of the font entry at `id`, one after the other.
pub open spec fn iter_inc_font(m: Map<int, FontModel>, id: int, n: nat) -> Map<int, FontModel>
    decreases n,
{
    if n == 0 {
        m
    } else {
        spec_inc_font(iter_inc_font(m, id, (n - 1) as nat), id)
    }
}

/// `n` releases of the font entry at `id`, one after the other.
pub open spec fn iter_dec_font(m: Map<int, FontModel>, id: int, n: nat) -> Map<int, FontModel>
    decreases n,
{
    if n == 0 {
        m
    } else {
        iter_dec_font(spec_dec_font(m, id), id, (n - 1) as nat)
    }
}

/// `n` duplications of the buffer entry at `id`, one after the other.
pub open spec fn iter_inc_buffer(m: Map<int, BufferModel>, id: int, n: nat) -> Map<
    int,
    BufferModel,
>
    decreases n,
{
    if n == 0 {
        m
    } else {
        spec_inc_buffer(iter_inc_buffer(m, id, (n - 1) as nat), id)
    }
}

/// `n` releases of the buffer entry at `id`, one after the other.
pub open spec fn iter_dec_buffer(m: Map<int, BufferModel>, id: int, n: nat) -> Map<
    int,
    BufferModel,
>
    decreases n,
{
    if n == 0 {
        m
    } else {
        iter_dec_buffer(spec_dec_buffer(m, id), id, (n - 1) as nat)
    }
}

proof fn lemma_iter_inc_font_closed_form(m: Map<int, FontModel>, id: int, n: nat)
    requires
        m.dom().contains(id),
    ensures
        iter_inc_font(m, id, n) == m.insert(id, font_with_count(m[id], m[id].count + n)),
    decreases n,
{
    if n == 0 {
        assert(font_with_count(m[id], m[id].count + 0) == m[id]);
        assert(m.insert(id, m[id]) =~= m);
    } else {
        lemma_iter_inc_font_closed_form(m, id, (n - 1) as nat);
        let prev = m.insert(id, font_with_count(m[id], (m[id].count + n - 1) as nat));
        assert(iter_inc_font(m, id, n) == spec_inc_font(prev, id));
        assert(spec_inc_font(prev, id) =~= m.insert(id, font_with_count(m[id], m[id].count + n)));
    }
}

proof fn lemma_iter_dec_font_floor(m: Map<int, FontModel>, id: int, k: nat)
    requires
        m.dom().contains(id),
        m[id].count >= k + 1,
    ensures
        iter_dec_font(m, id, k) == m.insert(id, font_with_count(m[id], (m[id].count - k) as nat)),
    decreases k,
{
    if k == 0 {
        assert(font_with_count(m[id], (m[id].count - 0) as nat) == m[id]);
        assert(m.insert(id, m[id]) =~= m);
    } else {
        let m1 = spec_dec_font(m, id);
        assert(m1 == m.insert(id, font_with_count(m[id], (m[id].count - 1) as nat)));
        lemma_iter_dec_font_floor(m1, id, (k - 1) as nat);
        assert(m1.insert(id, font_with_count(m1[id], (m1[id].count - (k - 1)) as nat)) =~= m.insert(
            id,
            font_with_count(m[id], (m[id].count - k) as nat),
        ));
    }
}

proof fn lemma_iter_inc_buffer_closed_form(m: Map<int, BufferModel>, id: int, n: nat)
    requires
        m.dom().contains(id),
    ensures
        iter_inc_buffer(m, id, n) == m.insert(id, buffer_with_count(m[id], m[id].count + n)),
    decreases n,
{
    if n == 0 {
        assert(buffer_with_count(m[id], m[id].count + 0) == m[id]);
        assert(m.insert(id, m[id]) =~= m);
    } else {
        lemma_iter_inc_buffer_closed_form(m, id, (n - 1) as nat);
        let prev = m.insert(id, buffer_with_count(m[id], (m[id].count + n - 1) as nat));
        assert(iter_inc_buffer(m, id, n) == spec_inc_buffer(prev, id));
        assert(spec_inc_buffer(prev, id) =~= m.insert(
            id,
            buffer_with_count(m[id], m[id].count + n),
        ));
    }
}

proof fn lemma_iter_dec_buffer_floor(m: Map<int, BufferModel>, id: int, k: nat)
    requires
        m.dom().contains(id),
        m[id].count >= k + 1,
    ensures
        iter_dec_buffer(m, id, k) == m.insert(
            id,
            buffer_with_count(m[id], (m[id].count - k) as nat),
        ),
    decreases k,
{
    if k == 0 {
        assert(buffer_with_count(m[id], (m[id].count - 0) as nat) == m[id]);
        assert(m.insert(id, m[id]) =~= m);
    } else {
        let m1 = spec_dec_buffer(m, id);
        assert(m1 == m.insert(id, buffer_with_count(m[id], (m[id].count - 1) as nat)));
        lemma_iter_dec_buffer_floor(m1, id, (k - 1) as nat);
        assert(m1.insert(id, buffer_with_count(m1[id], (m1[id].count - (k - 1)) as nat))
            =~= m.insert(id, buffer_with_count(m[id], (m[id].count - k) as nat)));
    }
}

/// Refcount conservation for fonts: any `n` duplications of a live font
/// entry followed by `n` releases return the registry exactly to its
/// prior state — the entry's count and liveness included.
pub proof fn lemma_font_refcount_conservation(m: Map<int, FontModel>, id: int, n: nat)
    requires
        m.dom().contains(id),
        m[id].count >= 1,
    ensures
        iter_dec_font(iter_inc_font(m, id, n), id, n) == m,
{
    lemma_iter_inc_font_closed_form(m, id, n);
    let mi = m.insert(id, font_with_count(m[id], m[id].count + n));
    lemma_iter_dec_font_floor(mi, id, n);
    assert(mi.insert(id, font_with_count(mi[id], (mi[id].count - n) as nat)) =~= m);
}

/// Refcount conservation for buffers: any `n` duplications of a live
/// buffer entry followed by `n` releases return the pool exactly to its
/// prior state.
pub proof fn lemma_buffer_refcount_conservation(m: Map<int, BufferModel>, id: int, n: nat)
    requires
        m.dom().contains(id),
        m[id].count >= 1,
    ensures
        iter_dec_buffer(iter_inc_buffer(m, id, n), id, n) == m,
{
    lemma_iter_inc_buffer_closed_form(m, id, n);
    let mi = m.insert(id, buffer_with_count(m[id], m[id].count + n));
    lemma_iter_dec_buffer_floor(mi, id, n);
    assert(mi.insert(id, buffer_with_count(mi[id], (mi[id].count - n) as nat)) =~= m);
}

/// Releasing the last reference evicts the font entry: a later lookup of
/// the id finds nothing.
pub proof fn lemma_release_last_evicts_font(m: Map<int, FontModel>, id: int)
    requires
        m.dom().contains(id),
        m[id].count == 1,
    ensures
        !spec_dec_font(m, id).dom().contains(id),
{
}

/// Weak references own nothing: once every owning reference of a buffer
/// is released, the entry is gone and a lookup by the remembered id
/// fails.
pub proof fn lemma_release_all_buffer_handles_evicts(m: Map<int, BufferModel>, id: int, n: nat)
    requires
        m.dom().contains(id),
        m[id].count == n,
        n >= 1,
    ensures
        !iter_dec_buffer(m, id, n).dom().contains(id),
    decreases n,
{
    let m1 = spec_dec_buffer(m, id);
    if n == 1 {
        assert(iter_dec_buffer(m1, id, 0) == m1);
        assert(iter_dec_buffer(m, id, n) == m1);
    } else {
        assert(m1 == m.insert(id, buffer_with_count(m[id], (n - 1) as nat)));
        lemma_release_all_buffer_handles_evicts(m1, id, (n - 1) as nat);
    }
}

/// A buffer keeps its font alive: while the buffer's own font handle
/// still accounts for one reference, releasing every one of the `k`
/// other references leaves the font entry live, at count exactly 1.
pub proof fn lemma_buffer_keeps_font_alive(m: Map<int, FontModel>, id: int, k: nat)
    requires
        m.dom().contains(id),
        m[id].count == k + 1,
    ensures
        iter_dec_font(m, id, k).dom().contains(id),
        iter_dec_font(m, id, k)[id].count == 1,
        iter_dec_font(m, id, k)[id].fingerprint == m[id].fingerprint,
{
    lemma_iter_dec_font_floor(m, id, k);
}

/// Fingerprint deduplication: resolving a descriptor whose fingerprint
/// is not yet registered inserts one entry; resolving it again finds that
/// same id and only bumps its count to 2 — afterwards exactly one live
/// entry carries the fingerprint.
pub proof fn lemma_resolve_same_fingerprint_dedups(m: Map<int, FontModel>, id: int, f: FontModel)
    requires
        fingerprints_unique(m),
        forall|i: int| #[trigger] m.dom().contains(i) ==> m[i].fingerprint != f.fingerprint,
        !m.dom().contains(id),
        f.count == 1,
    ensures
        ({
            let m1 = m.insert(id, f);
            let m2 = spec_inc_font(m1, id);
            &&& forall|j: int| #[trigger]
                m1.dom().contains(j) && m1[j].fingerprint == f.fingerprint ==> j == id
            &&& m2.dom().contains(id)
            &&& m2[id].count == 2
            &&& m2[id].fingerprint == f.fingerprint
            &&& fingerprints_unique(m2)
            &&& forall|j: int| #[trigger]
                m2.dom().contains(j) && m2[j].fingerprint == f.fingerprint ==> j == id
        }),
{
    let m1 = m.insert(id, f);
    let m2 = spec_inc_font(m1, id);
    assert forall|j: int| #[trigger]
        m1.dom().contains(j) && m1[j].fingerprint == f.fingerprint implies j == id by {
        if j != id {
            assert(m.dom().contains(j));
        }
    }
    assert forall|j: int| #[trigger]
        m2.dom().contains(j) && m2[j].fingerprint == f.fingerprint implies j == id by {
        if j != id {
            assert(m.dom().contains(j));
        }
    }
}

} // verus!
