use vstd::prelude::*;

verus! {

/// Number of components in every embedding vector.
pub const DIM: usize = 512;

/// Provenance of one chunk: the file it came from and its code.
#[derive(Debug)]
pub struct Metadata {
    pub file: String,
    pub code: String,
}

impl View for Metadata {
    type V = (Seq<char>, Seq<char>);

    open spec fn view(&self) -> (Seq<char>, Seq<char>) {
        (self.file@, self.code@)
    }
}

/// The views of a sequence of metadata.
pub open spec fn meta_views(ms: Seq<Metadata>) -> Seq<(Seq<char>, Seq<char>)> {
    ms.map_values(|m: Metadata| m@)
}

impl Metadata {
    pub open spec fn same_as(&self, other: &Metadata) -> bool {
        self.file@ == other.file@ && self.code@ == other.code@
    }

    pub fn duplicate(&self) -> (r: Metadata)
        ensures
            r.same_as(self),
    {
        Metadata { file: self.file.clone(), code: self.code.clone() }
    }
}

/// One chunk of a source file, as the chunker hands it over.
#[derive(Debug)]
pub struct ChunkRecord {
    pub source_id: String,
    pub text: String,
}

impl ChunkRecord {
    pub fn new(source_id: String, text: String) -> (r: ChunkRecord)
        ensures
            r.source_id@ == source_id@,
            r.text@ == text@,
    {
        ChunkRecord { source_id, text }
    }

    /// The metadata that travels with this chunk's vector.
    pub open spec fn provenance_matches(&self, m: &Metadata) -> bool {
        m.file@ == self.source_id@ && m.code@ == self.text@
    }

    pub fn metadata(&self) -> (r: Metadata)
        ensures
            self.provenance_matches(&r),
    {
        Metadata { file: self.source_id.clone(), code: self.text.clone() }
    }
}

/// An embedding vector; each component is held as the bit pattern of an
/// IEEE-754 single-precision number.
#[derive(Debug)]
pub struct Embedding {
    pub components: Vec<u32>,
}

impl View for Embedding {
    type V = Seq<u32>;

    open spec fn view(&self) -> Seq<u32> {
        self.components@
    }
}

impl Embedding {
    pub open spec fn well_formed(&self) -> bool {
        self.components@.len() == DIM
    }

    pub fn duplicate(&self) -> (r: Embedding)
        ensures
            r@ == self@,
    {
        let mut out: Vec<u32> = Vec::new();
        let mut i: usize = 0;
        while i < self.components.len()
            invariant
                i <= self.components@.len(),
                out@ == self.components@.subrange(0, i as int),
            decreases self.components@.len() - i,
        {
            out.push(self.components[i]);
            i = i + 1;
            assert(out@ == self.components@.subrange(0, i as int));
        }
        assert(out@ == self.components@);
        Embedding { components: out }
    }
}

/// Why an embedding call gave no usable vectors.
#[derive(Debug, Clone, Copy, PartialEq, Eq, Structural)]
pub enum EmbeddingError {
    /// The embedding service itself failed.
    Upstream,
    /// A vector came back with `found` components instead of `DIM`.
    DimensionMismatch { found: usize },
    /// A batch call returned `found` vectors for `expected` texts.
    CountMismatch { expected: usize, found: usize },
}

/// The first embedding failure met while ingesting a corpus, with the index
/// of the batch it came from.
#[derive(Debug, Clone, Copy, PartialEq, Eq, Structural)]
pub struct EmbeddingBuildError {
    pub batch: usize,
    pub cause: EmbeddingError,
}

} // verus!
