//! The digest of a node: a hash of what the node and all nodes below it hold,
//! but for their places in the text.
//!
//! A node's digest is the SHA-256 hash of a sequence of pieces: a byte that
//! tells the node's type, then one piece or more for each field, in order. A
//! child contributes its own digest. Each piece is written behind its length,
//! so that no two sequences of pieces give the same bytes. Offsets and the
//! digests kept in the nodes are no input: a node that moves within the text
//! keeps its digest.

use crate::ast::Digest;
use vstd::bytes::{spec_u64_to_le_bytes, u64_to_le_bytes};
use vstd::prelude::*;
use vstd::string::StringSliceAdditionalSpecFns;
use vstd::utf8::encode_utf8;

verus! {

/// The SHA-256 hash of a sequence of bytes.
pub uninterp spec fn sha256(data: Seq<u8>) -> Seq<u8>;

/// `sha2::Sha256::digest`: the SHA-256 hash of the bytes given, which is a
/// function of these bytes alone and 32 bytes long.
#[verifier::external_body]
fn sha256_of(data: &Vec<u8>) -> (digest: Digest)
    ensures
        digest@ == sha256(data@),
{
    <sha2::Sha256 as sha2::Digest>::digest(data.as_slice()).into()
}

/// The eight bytes of a number, the lowest first.
pub open spec fn number_bytes(n: int) -> Seq<u8> {
    spec_u64_to_le_bytes(n as u64)
}

/// The byte of a truth value.
pub open spec fn flag_bytes(flag: bool) -> Seq<u8> {
    if flag {
        seq![1u8]
    } else {
        seq![0u8]
    }
}

/// The bytes of a text, as UTF-8.
pub open spec fn text_bytes(text: Seq<char>) -> Seq<u8> {
    encode_utf8(text)
}

/// A piece behind its length.
pub open spec fn chunk(piece: Seq<u8>) -> Seq<u8> {
    number_bytes(piece.len() as int) + piece
}

/// The pieces one behind the other, each behind its length.
pub open spec fn chunks(pieces: Seq<Seq<u8>>) -> Seq<u8>
    decreases pieces.len(),
{
    if pieces.len() == 0 {
        Seq::empty()
    } else {
        chunks(pieces.drop_last()) + chunk(pieces.last())
    }
}

/// The digest that a sequence of pieces gives.
pub open spec fn digest_of_pieces(pieces: Seq<Seq<u8>>) -> Seq<u8> {
    sha256(chunks(pieces))
}

/// One more piece adds its chunk.
pub proof fn lemma_chunks_push(pieces: Seq<Seq<u8>>, piece: Seq<u8>)
    ensures
        chunks(pieces.push(piece)) == chunks(pieces) + chunk(piece),
{
    assert(pieces.push(piece).drop_last() =~= pieces);
}

/// Collects the pieces of one node, and hashes them.
pub struct Hasher {
    bytes: Vec<u8>,
    pieces: Ghost<Seq<Seq<u8>>>,
}

impl Hasher {
    /// The pieces collected so far.
    pub closed spec fn pieces(&self) -> Seq<Seq<u8>> {
        self.pieces@
    }

    /// The bytes collected are those of the pieces.
    pub closed spec fn wf(&self) -> bool {
        self.bytes@ == chunks(self.pieces@)
    }

    /// A hasher that holds one piece: the byte that tells the node's type.
    pub fn new(tag: u8) -> (hasher: Self)
        ensures
            hasher.wf(),
            hasher.pieces() == seq![seq![tag]],
    {
        let mut hasher = Hasher { bytes: Vec::new(), pieces: Ghost(Seq::empty()) };
        assert(hasher.bytes@ =~= chunks(Seq::empty()));
        let mut piece: Vec<u8> = Vec::new();
        piece.push(tag);
        hasher.put(piece.as_slice());
        assert(hasher.pieces() =~= seq![seq![tag]]);
        assert(piece@ =~= seq![tag]);
        hasher
    }

    /// Adds a piece.
    pub fn put(&mut self, piece: &[u8])
        requires
            old(self).wf(),
        ensures
            final(self).wf(),
            final(self).pieces() == old(self).pieces().push(piece@),
    {
        let mut length = u64_to_le_bytes(piece.len() as u64);
        self.bytes.append(&mut length);
        let ghost before = self.bytes@;
        assert(before == chunks(self.pieces@) + number_bytes(piece.len() as int));
        let mut i: usize = 0;
        assert(self.bytes@ =~= before + piece@.subrange(0, 0));
        while i < piece.len()
            invariant
                i <= piece.len(),
                self.pieces == old(self).pieces,
                self.bytes@ == before + piece@.subrange(0, i as int),
            decreases piece.len() - i,
        {
            self.bytes.push(piece[i]);
            i += 1;
            assert(self.bytes@ =~= before + piece@.subrange(0, i as int));
        }
        proof {
            assert(piece@.subrange(0, piece.len() as int) =~= piece@);
            lemma_chunks_push(self.pieces@, piece@);
            assert(self.bytes@ =~= chunks(self.pieces@) + chunk(piece@));
            self.pieces@ = self.pieces@.push(piece@);
        }
    }

    /// Adds a number as a piece.
    pub fn put_number(&mut self, n: usize)
        requires
            old(self).wf(),
        ensures
            final(self).wf(),
            final(self).pieces() == old(self).pieces().push(number_bytes(n as int)),
    {
        let bytes = u64_to_le_bytes(n as u64);
        self.put(bytes.as_slice());
    }

    /// Adds a number of 64 bits as a piece.
    pub fn put_u64(&mut self, n: u64)
        requires
            old(self).wf(),
        ensures
            final(self).wf(),
            final(self).pieces() == old(self).pieces().push(number_bytes(n as int)),
    {
        let bytes = u64_to_le_bytes(n);
        self.put(bytes.as_slice());
    }

    /// Adds a truth value as a piece.
    pub fn put_flag(&mut self, flag: bool)
        requires
            old(self).wf(),
        ensures
            final(self).wf(),
            final(self).pieces() == old(self).pieces().push(flag_bytes(flag)),
    {
        let mut piece: Vec<u8> = Vec::new();
        piece.push(if flag {
            1u8
        } else {
            0u8
        });
        assert(piece@ =~= flag_bytes(flag));
        self.put(piece.as_slice());
    }

    /// Adds a text as a piece.
    pub fn put_text(&mut self, text: &str)
        requires
            old(self).wf(),
        ensures
            final(self).wf(),
            final(self).pieces() == old(self).pieces().push(text_bytes(text@)),
    {
        self.put(text.as_bytes());
    }

    /// The digest of the pieces collected.
    pub fn finish(self) -> (digest: Digest)
        requires
            self.wf(),
        ensures
            digest@ == digest_of_pieces(self.pieces()),
    {
        sha256_of(&self.bytes)
    }
}

} // verus!
