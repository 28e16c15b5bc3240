use vstd::prelude::*;
use sha1::Digest;

verus! {

/// A resolved font descriptor: either a file on disk or raw font bytes,
/// each together with the index of the face inside the file.  The path is
/// carried as the bytes of its textual form.
pub enum FontDescriptor {
    Path { path: Vec<u8>, face_index: u32 },
    Memory { bytes: Vec<u8>, face_index: u32 },
}

/// The SHA-1 digest of a byte sequence; always 20 bytes.
pub uninterp spec fn sha1_of(data: Seq<u8>) -> Seq<u8>;

/// Relies on sha1::Sha1 through the digest interface: the digest is a
/// function of the input bytes alone, and SHA-1 output is 20 bytes.
#[verifier::external_body]
fn sha1_digest(data: &Vec<u8>) -> (r: Vec<u8>)
    ensures
        r@ == sha1_of(data@),
        r@.len() == 20,
{
    sha1::Sha1::digest(data.as_slice()).to_vec()
}

/// The four bytes of `x` in little-endian order.
pub open spec fn spec_le_bytes(x: u32) -> Seq<u8> {
    seq![
        (x & 0xff) as u8,
        ((x >> 8) & 0xff) as u8,
        ((x >> 16) & 0xff) as u8,
        ((x >> 24) & 0xff) as u8,
    ]
}

/// The content a descriptor is fingerprinted over: the path bytes or the
/// raw font bytes, followed by the face index as four little-endian bytes.
pub open spec fn spec_fingerprint_content(d: FontDescriptor) -> Seq<u8> {
    match d {
        FontDescriptor::Path { path, face_index } => path@ + spec_le_bytes(face_index),
        FontDescriptor::Memory { bytes, face_index } => bytes@ + spec_le_bytes(face_index),
    }
}

/// The fingerprint that deduplicates font resources: the SHA-1 digest of
/// the descriptor's content.  Identical descriptors always fingerprint
/// identically.
pub open spec fn spec_fingerprint(d: FontDescriptor) -> Seq<u8> {
    sha1_of(spec_fingerprint_content(d))
}

/// Appends the four little-endian bytes of `x` to `out`.
fn push_le_bytes(out: &mut Vec<u8>, x: u32)
    ensures
        final(out)@ == old(out)@ + spec_le_bytes(x),
{
    proof {
        assert((x & 0xff) < 256 && ((x >> 8) & 0xff) < 256 && ((x >> 16) & 0xff) < 256 && ((x
            >> 24) & 0xff) < 256) by (bit_vector);
    }
    out.push((x & 0xff) as u8);
    out.push(((x >> 8) & 0xff) as u8);
    out.push(((x >> 16) & 0xff) as u8);
    out.push(((x >> 24) & 0xff) as u8);
    proof {
        assert(out@ =~= old(out)@ + spec_le_bytes(x));
    }
}

/// Computes the 20-byte content fingerprint of a descriptor.
pub fn generate_fingerprint(descriptor: &FontDescriptor) -> (r: Vec<u8>)
    ensures
        r@ == spec_fingerprint(*descriptor),
        r@.len() == 20,
{
    let mut content: Vec<u8> = Vec::new();
    match descriptor {
        FontDescriptor::Path { path, face_index } => {
            append_bytes(&mut content, path);
            push_le_bytes(&mut content, *face_index);
        },
        FontDescriptor::Memory { bytes, face_index } => {
            append_bytes(&mut content, bytes);
            push_le_bytes(&mut content, *face_index);
        },
    }
    sha1_digest(&content)
}

/// Appends every byte of `src` to `out`.
fn append_bytes(out: &mut Vec<u8>, src: &Vec<u8>)
    ensures
        final(out)@ == old(out)@ + src@,
{
    let n = src.len();
    let mut i: usize = 0;
    while i < n
        invariant
            i <= n,
            n == src@.len(),
            out@ == old(out)@ + src@.subrange(0, i as int),
        decreases n - i,
    {
        out.push(src[i]);
        proof {
            assert(out@ =~= old(out)@ + src@.subrange(0, i + 1));
        }
        i = i + 1;
    }
    proof {
        assert(src@.subrange(0, n as int) =~= src@);
    }
}

/// Compares two byte vectors for equality of their contents.
pub fn bytes_eq(a: &Vec<u8>, b: &Vec<u8>) -> (r: bool)
    ensures
        r == (a@ == b@),
{
    if a.len() != b.len() {
        proof {
            assert(a@.len() != b@.len());
        }
        return false;
    }
    let n = a.len();
    let mut i: usize = 0;
    while i < n
        invariant
            i <= n,
            n == a@.len() && n == b@.len(),
            forall|j: int| 0 <= j < i ==> a@[j] == b@[j],
        decreases n - i,
    {
        if a[i] != b[i] {
            return false;
        }
        i = i + 1;
    }
    proof {
        assert(a@ =~= b@);
    }
    true
}

} // verus!
