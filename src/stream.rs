use vstd::prelude::*;
use vstd::string::*;

verus! {

/// One element pulled from a chat answer stream.
#[derive(Debug)]
pub enum StreamEvent {
    /// A piece of the answer, in generation order.
    Fragment(String),
    /// The stream ended normally.
    End,
    /// The stream ended with an error.
    Error,
}

/// Whether a stream is still open, and how it ended.
#[derive(Debug, Clone, Copy, PartialEq, Eq, Structural)]
pub enum StreamStatus {
    Open,
    Ended,
    Failed,
}

/// The plain content of a stream event.
pub enum EventView {
    Fragment(Seq<char>),
    End,
    Error,
}

pub open spec fn event_view(e: StreamEvent) -> EventView {
    match e {
        StreamEvent::Fragment(t) => EventView::Fragment(t@),
        StreamEvent::End => EventView::End,
        StreamEvent::Error => EventView::Error,
    }
}

pub open spec fn event_views(es: Seq<StreamEvent>) -> Seq<EventView> {
    es.map_values(|e: StreamEvent| event_view(e))
}

/// What a consumer has seen after one more event: fragments add to the
/// text while the stream is open; the first end or error closes it, and
/// nothing after that changes what was seen.
pub open spec fn step(seen: (Seq<char>, StreamStatus), e: EventView) -> (Seq<char>, StreamStatus) {
    if seen.1 != StreamStatus::Open {
        seen
    } else {
        match e {
            EventView::Fragment(t) => (seen.0 + t, StreamStatus::Open),
            EventView::End => (seen.0, StreamStatus::Ended),
            EventView::Error => (seen.0, StreamStatus::Failed),
        }
    }
}

/// What a consumer has seen after the given events, from an open stream
/// with no text.
pub open spec fn replay(es: Seq<EventView>) -> (Seq<char>, StreamStatus)
    decreases es.len(),
{
    if es.len() == 0 {
        (Seq::empty(), StreamStatus::Open)
    } else {
        step(replay(es.drop_last()), es.last())
    }
}

/// The text of a run of fragments.
pub open spec fn fragments_text(es: Seq<EventView>) -> Seq<char>
    decreases es.len(),
{
    if es.len() == 0 {
        Seq::empty()
    } else {
        fragments_text(es.drop_last()) + match es.last() {
            EventView::Fragment(t) => t,
            _ => Seq::empty(),
        }
    }
}

/// The answer as a consumer receives it.
pub struct AnswerStream {
    pub text: String,
    pub status: StreamStatus,
}

impl AnswerStream {
    pub fn new() -> (r: AnswerStream)
        ensures
            r.text@ == Seq::<char>::empty(),
            r.status == StreamStatus::Open,
    {
        AnswerStream { text: String::new(), status: StreamStatus::Open }
    }

    /// Takes in the next event of the stream.
    pub fn feed(&mut self, e: &StreamEvent)
        ensures
            (final(self).text@, final(self).status) == step((old(self).text@, old(self).status), event_view(*e)),
    {
        if self.status != StreamStatus::Open {
            return;
        }
        match e {
            StreamEvent::Fragment(t) => {
                self.text.append(t.as_str());
            },
            StreamEvent::End => {
                self.status = StreamStatus::Ended;
            },
            StreamEvent::Error => {
                self.status = StreamStatus::Failed;
            },
        }
    }

    /// Whether the stream ended normally, as opposed to still open or failed.
    pub fn completed(&self) -> (r: bool)
        ensures
            r == (self.status == StreamStatus::Ended),
    {
        self.status == StreamStatus::Ended
    }
}

/// Consumes a whole sequence of events.
pub fn collect_stream(events: &Vec<StreamEvent>) -> (r: AnswerStream)
    ensures
        (r.text@, r.status) == replay(event_views(events@)),
{
    let mut acc = AnswerStream::new();
    let mut i: usize = 0;
    while i < events.len()
        invariant
            i <= events@.len(),
            (acc.text@, acc.status) == replay(event_views(events@.subrange(0, i as int))),
        decreases events@.len() - i,
    {
        acc.feed(&events[i]);
        assert(event_views(events@.subrange(0, i + 1)).drop_last() =~= event_views(events@.subrange(0, i as int)));
        i = i + 1;
    }
    assert(events@.subrange(0, events@.len() as int) =~= events@);
    acc
}

proof fn lemma_fragments_open(fs: Seq<EventView>)
    requires
        forall|i: int| 0 <= i < fs.len() ==> #[trigger] fs[i] is Fragment,
    ensures
        replay(fs) == (fragments_text(fs), StreamStatus::Open),
    decreases fs.len(),
{
    if fs.len() > 0 {
        lemma_fragments_open(fs.drop_last());
        assert(fs.last() == fs[fs.len() - 1]);
    }
}

proof fn lemma_closed_stays(es: Seq<EventView>, rest: Seq<EventView>)
    requires
        replay(es).1 != StreamStatus::Open,
    ensures
        replay(es + rest) == replay(es),
    decreases rest.len(),
{
    if rest.len() > 0 {
        lemma_closed_stays(es, rest.drop_last());
        assert((es + rest).drop_last() =~= es + rest.drop_last());
    }
}

/// A stream that fails after some fragments shows the consumer exactly
/// those fragments and then the failure, never a normal end, whatever the
/// stream would have sent afterwards.
pub proof fn lemma_error_is_seen(fs: Seq<EventView>, rest: Seq<EventView>)
    requires
        forall|i: int| 0 <= i < fs.len() ==> #[trigger] fs[i] is Fragment,
    ensures
        replay(fs.push(EventView::Error) + rest) == (fragments_text(fs), StreamStatus::Failed),
{
    lemma_fragments_open(fs);
    assert(fs.push(EventView::Error).drop_last() =~= fs);
    lemma_closed_stays(fs.push(EventView::Error), rest);
}

} // verus!
