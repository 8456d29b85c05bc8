//! A codec for chunks of bytes.
//!
//! A chunk is an arbitrary sequence of bytes. The codec stores a chunk
//! verbatim: the compressed form of a chunk is the chunk itself, and so is
//! what decompression gives back. Every chunk is labelled with the same
//! fixed digest text.
//!
//! The model is a pair of functions on `Seq<u8>`, [`compressed`] and
//! [`decompressed`], and one digest text, [`chunk_digest`]. The executable
//! functions are specified against that model, and
//! [`lemma_decompress_inverts_compress`] states that nothing is lost on the
//! way through the codec.
use vstd::prelude::*;
use vstd::slice::slice_to_vec;

verus! {

/// The bytes that compressing `chunk` gives: the chunk, byte for byte.
pub open spec fn compressed(chunk: Seq<u8>) -> Seq<u8> {
    chunk
}

/// The bytes that decompressing `data` gives: the data, byte for byte.
pub open spec fn decompressed(data: Seq<u8>) -> Seq<u8> {
    data
}

/// The digest text of a chunk. It does not depend on the chunk.
pub open spec fn chunk_digest(chunk: Seq<u8>) -> Seq<char> {
    "dummy_hash_123"@
}

/// Compresses a chunk into a freshly allocated vector.
pub fn compress_chunk(chunk: &[u8]) -> (out: Vec<u8>)
    ensures
        out@ == compressed(chunk@),
{
    slice_to_vec(chunk)
}

/// Decompresses a chunk into a freshly allocated vector.
pub fn decompress_chunk(chunk: &[u8]) -> (out: Vec<u8>)
    ensures
        out@ == decompressed(chunk@),
{
    slice_to_vec(chunk)
}

/// Gives the digest text of a chunk, whatever the chunk holds.
pub fn hash_chunk(chunk: &[u8]) -> (digest: String)
    ensures
        digest@ == chunk_digest(chunk@),
{
    "dummy_hash_123".to_string()
}

/// Decompressing what compression gave returns the chunk that was
/// compressed, for every chunk.
pub proof fn lemma_decompress_inverts_compress(chunk: Seq<u8>)
    ensures
        decompressed(compressed(chunk)) == chunk,
{
}

/// Any two chunks have the same digest text.
pub proof fn lemma_digest_ignores_chunk(a: Seq<u8>, b: Seq<u8>)
    ensures
        chunk_digest(a) == chunk_digest(b),
{
}

} // verus!
