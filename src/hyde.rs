use vstd::prelude::*;
use vstd::string::*;
use crate::index::{in_range_hits, AppoxNearestNeighor, Hit};
use crate::model::{meta_views, Embedding, EmbeddingError, Metadata};
use crate::prompt::{
    explain_request, explain_text, hypothetical_prompt, hypothetical_system,
    hypothetical_system_text, hypothetical_text, synthesis_prompt, synthesis_text, ChatRequest,
    default_system_text,
};

verus! {

/// One retrieved chunk: its rank among the results, its distance (bit
/// pattern of a non-negative single-precision number) and its metadata.
#[derive(Debug)]
pub struct HypotheticalResult {
    pub index: usize,
    pub distance: u32,
    pub meta: Metadata,
}

/// What a finished retrieval hands back: the whole streamed answer and the
/// chunks it was drawn from.
#[derive(Debug)]
pub struct HypotheticalResponse {
    pub answer_stream: String,
    pub code_refs: Vec<HypotheticalResult>,
}

/// Why a retrieval stopped.
#[derive(Debug, Clone, Copy, PartialEq, Eq, Structural)]
pub enum RetrievalError {
    /// The hypothetical document came back empty, or its request failed.
    HypotheticalGeneration,
    /// Embedding the hypothetical document failed.
    Embedding(EmbeddingError),
    /// The answer stream ended with an error.
    Stream,
    /// An event arrived that the current stage does not wait for.
    OutOfOrder,
}

/// The stages of one retrieval, in the order they run.
#[derive(Debug, Clone, Copy, PartialEq, Eq, Structural)]
pub enum Stage {
    GeneratingHypothetical,
    EmbeddingHypothetical,
    SearchingIndex,
    SynthesizingAnswer,
    Done,
    Failed,
}

/// What the outside world reports back to a retrieval.
#[derive(Debug)]
pub enum Event {
    /// The buffered chat call for the hypothetical document returned this text.
    Hypothetical(String),
    /// The buffered chat call failed.
    ChatFailed,
    /// The hypothetical document was embedded, or embedding failed.
    Embedded(Result<Embedding, EmbeddingError>),
    /// The nearest-neighbour search reported these hits.
    Searched(Vec<Hit>),
    /// The answer stream ended normally.
    AnswerEnded,
    /// The answer stream ended with an error.
    AnswerFailed,
}

/// What a retrieval asks the outside world to do next.
#[derive(Debug)]
pub enum Action {
    /// Run a buffered chat call and report `Hypothetical` or `ChatFailed`.
    Chat(ChatRequest),
    /// Embed this text and report `Embedded`.
    Embed(String),
    /// Search the index for the `k` nearest neighbours and report `Searched`.
    Search(Embedding, usize),
    /// Stream a chat answer to the caller and report how it ended.
    StreamAnswer(ChatRequest),
    /// The retrieval is complete.
    Finish,
    /// The retrieval stopped with this error.
    Fail(RetrievalError),
}

/// The retriever: an index to search and the character budget of the
/// hypothetical document.
pub struct HypotheticalDoc<'a> {
    pub approx_near_neigh: &'a AppoxNearestNeighor,
    pub chunk_size: usize,
}

/// The state of one retrieval.
pub struct HydeSession {
    pub query: String,
    pub k: usize,
    pub stage: Stage,
    pub code_refs: Vec<HypotheticalResult>,
}

/// The results of a search, as retrieval results ranked from zero.
pub open spec fn search_matches(
    index: &AppoxNearestNeighor,
    hits: Seq<Hit>,
    k: int,
    r: Seq<HypotheticalResult>,
) -> bool {
    let valid = in_range_hits(hits, index.len());
    &&& r.len() == if k < valid.len() { k } else { valid.len() as int }
    &&& forall|t: int| 0 <= t < r.len() ==> {
        &&& (#[trigger] r[t]).index == t
        &&& r[t].distance == valid[t].1
        &&& r[t].meta.same_as(&index.metadata@[valid[t].0 as int])
    }
}

/// The metadata of the results, in order.
pub open spec fn metas_of(r: Seq<HypotheticalResult>) -> Seq<(Seq<char>, Seq<char>)> {
    r.map_values(|x: HypotheticalResult| x.meta@)
}

impl<'a> HypotheticalDoc<'a> {
    pub fn new(approx_nearest_neigh: &'a AppoxNearestNeighor, chunk_size: usize) -> (r: Self)
        ensures
            r.approx_near_neigh == approx_nearest_neigh,
            r.chunk_size == chunk_size,
    {
        HypotheticalDoc { approx_near_neigh: approx_nearest_neigh, chunk_size }
    }

    /// The chat request whose answer is the hypothetical document for `query`.
    pub fn generate_hypothetical_document(&self, query: &str) -> (r: ChatRequest)
        ensures
            r.system@ == hypothetical_system_text(),
            r.user@ == explain_text(hypothetical_text(self.chunk_size as nat, query@)),
    {
        let prompt = hypothetical_prompt(self.chunk_size, query);
        let system = hypothetical_system();
        self.explain_code_stream(prompt.as_str(), Some(system.as_str()))
    }

    /// The chat request that explains `code`, under the given system message
    /// or the default one.
    pub fn explain_code_stream(&self, code: &str, system_prompt: Option<&str>) -> (r: ChatRequest)
        ensures
            r.user@ == explain_text(code@),
            system_prompt matches Some(s) ==> r.system@ == s@,
            system_prompt is None ==> r.system@ == default_system_text(),
    {
        explain_request(code, system_prompt)
    }

    /// Ranks the hits of a search as retrieval results.
    pub fn similarity_search(&self, hits: &Vec<Hit>, k: usize) -> (r: Vec<HypotheticalResult>)
        requires
            self.approx_near_neigh.well_formed(),
        ensures
            search_matches(self.approx_near_neigh, hits@, k as int, r@),
    {
        let found = self.approx_near_neigh.query(hits, k);
        let mut out: Vec<HypotheticalResult> = Vec::new();
        let mut t: usize = 0;
        while t < found.len()
            invariant
                t <= found@.len(),
                out@.len() == t,
                forall|x: int| 0 <= x < t ==> {
                    &&& (#[trigger] out@[x]).index == x
                    &&& out@[x].distance == found@[x].distance
                    &&& out@[x].meta.same_as(&found@[x].metadata)
                },
            decreases found@.len() - t,
        {
            out.push(HypotheticalResult {
                index: t,
                distance: found[t].distance,
                meta: found[t].metadata.duplicate(),
            });
            t = t + 1;
        }
        out
    }

    /// The chat request that answers `query` from the retrieved chunks.
    pub fn synthesize_answer_stream(&self, query: &str, code_refs: &Vec<HypotheticalResult>) -> (r: ChatRequest)
        ensures
            r.system@ == default_system_text(),
            r.user@ == explain_text(synthesis_text(query@, metas_of(code_refs@))),
    {
        let mut metas: Vec<Metadata> = Vec::new();
        let mut i: usize = 0;
        while i < code_refs.len()
            invariant
                i <= code_refs@.len(),
                metas@.len() == i,
                forall|x: int| 0 <= x < i ==> #[trigger] metas@[x]@ == code_refs@[x].meta@,
            decreases code_refs@.len() - i,
        {
            metas.push(code_refs[i].meta.duplicate());
            i = i + 1;
        }
        assert(meta_views(metas@) =~= metas_of(code_refs@));
        let prompt = synthesis_prompt(query, &metas);
        self.explain_code_stream(prompt.as_str(), None)
    }
}


/// The events that the given stage waits for.
pub open spec fn expects(stage: Stage, ev: Event) -> bool {
    match stage {
        Stage::GeneratingHypothetical => ev is Hypothetical || ev is ChatFailed,
        Stage::EmbeddingHypothetical => ev is Embedded,
        Stage::SearchingIndex => ev is Searched,
        Stage::SynthesizingAnswer => ev is AnswerEnded || ev is AnswerFailed,
        _ => false,
    }
}

impl<'a> HypotheticalDoc<'a> {
    /// Starts a retrieval of the `k` chunks nearest to a hypothetical answer
    /// of `query`; the first step asks for that hypothetical document.
    pub fn begin(&self, query: &str, k: usize) -> (r: (HydeSession, Action))
        requires
            k >= 1,
        ensures
            r.0.query@ == query@,
            r.0.k == k,
            r.0.stage == Stage::GeneratingHypothetical,
            r.0.code_refs@.len() == 0,
            r.1 matches Action::Chat(req) && req.system@ == hypothetical_system_text()
                && req.user@ == explain_text(hypothetical_text(self.chunk_size as nat, query@)),
    {
        let req = self.generate_hypothetical_document(query);
        let session = HydeSession {
            query: String::from_str(query),
            k,
            stage: Stage::GeneratingHypothetical,
            code_refs: Vec::new(),
        };
        (session, Action::Chat(req))
    }

    /// Moves a retrieval one stage on from what the outside world reported,
    /// and says what to do next. An empty hypothetical document is a failure:
    /// nothing is embedded or searched after it. A failed or finished
    /// retrieval never asks for more work.
    pub fn advance(&self, s: &mut HydeSession, ev: Event) -> (r: Action)
        requires
            self.approx_near_neigh.well_formed(),
        ensures
            final(s).query@ == old(s).query@,
            final(s).k == old(s).k,
            !(old(s).stage == Stage::SearchingIndex && ev is Searched) ==> final(s).code_refs == old(s).code_refs,
            !expects(old(s).stage, ev) ==> {
                &&& (r matches Action::Fail(RetrievalError::OutOfOrder))
                &&& final(s).stage == if old(s).stage == Stage::Done { Stage::Done } else { Stage::Failed }
            },
            old(s).stage == Stage::GeneratingHypothetical ==> {
                &&& ev matches Event::Hypothetical(doc) ==> {
                    &&& doc@.len() == 0 ==> final(s).stage == Stage::Failed
                        && (r matches Action::Fail(RetrievalError::HypotheticalGeneration))
                    &&& doc@.len() != 0 ==> final(s).stage == Stage::EmbeddingHypothetical
                        && (r matches Action::Embed(t) && t@ == doc@)
                }
                &&& ev is ChatFailed ==> final(s).stage == Stage::Failed
                    && (r matches Action::Fail(RetrievalError::HypotheticalGeneration))
            },
            old(s).stage == Stage::EmbeddingHypothetical ==> {
                &&& ev matches Event::Embedded(Ok(e)) ==> final(s).stage == Stage::SearchingIndex
                    && (r matches Action::Search(x, kk) && x == e && kk == old(s).k)
                &&& ev matches Event::Embedded(Err(e)) ==> final(s).stage == Stage::Failed
                    && (r matches Action::Fail(RetrievalError::Embedding(x)) && x == e)
            },
            old(s).stage == Stage::SearchingIndex ==> {
                ev matches Event::Searched(hits) ==> {
                    &&& final(s).stage == Stage::SynthesizingAnswer
                    &&& search_matches(self.approx_near_neigh, hits@, old(s).k as int, final(s).code_refs@)
                    &&& (r matches Action::StreamAnswer(req) && req.system@ == default_system_text()
                        && req.user@ == explain_text(synthesis_text(old(s).query@, metas_of(final(s).code_refs@))))
                }
            },
            old(s).stage == Stage::SynthesizingAnswer ==> {
                &&& ev is AnswerEnded ==> final(s).stage == Stage::Done && r is Finish
                &&& ev is AnswerFailed ==> final(s).stage == Stage::Failed
                    && (r matches Action::Fail(RetrievalError::Stream))
            },
    {
        match (s.stage, ev) {
            (Stage::GeneratingHypothetical, Event::Hypothetical(doc)) => {
                if doc.as_str().is_empty() {
                    s.stage = Stage::Failed;
                    Action::Fail(RetrievalError::HypotheticalGeneration)
                } else {
                    s.stage = Stage::EmbeddingHypothetical;
                    Action::Embed(doc)
                }
            },
            (Stage::GeneratingHypothetical, Event::ChatFailed) => {
                s.stage = Stage::Failed;
                Action::Fail(RetrievalError::HypotheticalGeneration)
            },
            (Stage::EmbeddingHypothetical, Event::Embedded(Ok(e))) => {
                s.stage = Stage::SearchingIndex;
                Action::Search(e, s.k)
            },
            (Stage::EmbeddingHypothetical, Event::Embedded(Err(e))) => {
                s.stage = Stage::Failed;
                Action::Fail(RetrievalError::Embedding(e))
            },
            (Stage::SearchingIndex, Event::Searched(hits)) => {
                let refs = self.similarity_search(&hits, s.k);
                let req = self.synthesize_answer_stream(s.query.as_str(), &refs);
                s.code_refs = refs;
                s.stage = Stage::SynthesizingAnswer;
                Action::StreamAnswer(req)
            },
            (Stage::SynthesizingAnswer, Event::AnswerEnded) => {
                s.stage = Stage::Done;
                Action::Finish
            },
            (Stage::SynthesizingAnswer, Event::AnswerFailed) => {
                s.stage = Stage::Failed;
                Action::Fail(RetrievalError::Stream)
            },
            (stage, _) => {
                if stage != Stage::Done {
                    s.stage = Stage::Failed;
                }
                Action::Fail(RetrievalError::OutOfOrder)
            },
        }
    }
}

impl HydeSession {
    /// The response of a finished retrieval, with the whole streamed answer;
    /// `None` while the retrieval is not done.
    pub fn response(self, answer: String) -> (r: Option<HypotheticalResponse>)
        ensures
            self.stage == Stage::Done <==> r is Some,
            r matches Some(resp) ==> resp.answer_stream == answer && resp.code_refs == self.code_refs,
    {
        if self.stage == Stage::Done {
            Some(HypotheticalResponse { answer_stream: answer, code_refs: self.code_refs })
        } else {
            None
        }
    }
}

} // verus!
