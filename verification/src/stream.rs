//! What an observed stream records as its chunks pass: the bookkeeping of a
//! streamed chat completion (first-chunk time, model, content, usage and
//! tool calls) and of a generic stream or iterator whose items are
//! collected; and the single finalisation of each.

use vstd::prelude::*;

use crate::chars::{append_str, copy_opt_string, copy_string, opt_view, strings_view};
use crate::tool_calls::{
    apply_deltas, lists_nonempty_in_order, AccumulatedToolCall, CallView, ToolCallAccumulator,
    ToolCallDelta, call_is_empty,
};
use crate::types::UsageDetails;

verus! {

broadcast use vstd::string::group_string_axioms;

/// What one chunk of a streamed chat completion carries.
#[derive(Debug)]
pub struct StreamChunk {
    /// The model that produced the chunk.
    pub model: String,
    /// Content delta of the first choice, if any.
    pub content: Option<String>,
    /// Token usage (sent with the final chunk when asked for).
    pub usage: Option<UsageDetails>,
    /// Tool-call deltas of the first choice (empty when none).
    pub tool_calls: Vec<ToolCallDelta>,
}

/// What to record on the generation for one chunk.
#[derive(Debug)]
pub struct ChunkEffects {
    /// Record the completion start time now.
    pub mark_completion_start: bool,
    /// Record this usage.
    pub usage: Option<UsageDetails>,
}

/// What to record on the generation when it is ended.
#[derive(Debug)]
pub struct GenerationSummary {
    /// The model, from the first chunk.
    pub model: Option<String>,
    /// The accumulated content, when there is any.
    pub output: Option<String>,
    /// The accumulated tool calls, when any is non-empty.
    pub tool_calls: Option<Vec<AccumulatedToolCall>>,
}

/// The bookkeeping of a streamed chat completion observed as a generation.
#[derive(Debug)]
pub struct StreamObserver {
    open: bool,
    first_chunk: bool,
    model: Option<String>,
    content: String,
    tool_calls: ToolCallAccumulator,
}

/// The state of a [`StreamObserver`].
pub struct StreamObserverView {
    /// The generation has not been ended yet.
    pub open: bool,
    /// No chunk has arrived yet.
    pub first_chunk: bool,
    /// The model of the first chunk.
    pub model: Option<Seq<char>>,
    /// The content so far.
    pub content: Seq<char>,
    /// The tool calls so far, by index.
    pub calls: Map<int, CallView>,
}

impl View for StreamObserver {
    type V = StreamObserverView;

    closed spec fn view(&self) -> StreamObserverView {
        StreamObserverView {
            open: self.open,
            first_chunk: self.first_chunk,
            model: opt_view(self.model),
            content: self.content@,
            calls: self.tool_calls@,
        }
    }
}

/// The characters of an optional content delta (none for an absent one).
pub open spec fn delta_text(c: Option<String>) -> Seq<char> {
    match c {
        Some(s) => s@,
        None => Seq::empty(),
    }
}

/// The state after one chunk: it is no longer the first, the model is that
/// of the first chunk, the content grows by the delta and the tool calls
/// take in the chunk's deltas.
pub open spec fn after_chunk(v: StreamObserverView, c: StreamChunk) -> StreamObserverView {
    StreamObserverView {
        open: v.open,
        first_chunk: false,
        model: match v.model {
            Some(m) => Some(m),
            None => Some(c.model@),
        },
        content: v.content + delta_text(c.content),
        calls: apply_deltas(v.calls, c.tool_calls@),
    }
}

/// The state after a sequence of chunks.
pub open spec fn after_chunks(v: StreamObserverView, cs: Seq<StreamChunk>) -> StreamObserverView
    decreases cs.len(),
{
    if cs.len() == 0 {
        v
    } else {
        after_chunks(after_chunk(v, cs[0]), cs.drop_first())
    }
}

/// The content deltas of a sequence of chunks, joined.
pub open spec fn joined_content(cs: Seq<StreamChunk>) -> Seq<char>
    decreases cs.len(),
{
    if cs.len() == 0 {
        Seq::empty()
    } else {
        delta_text(cs[0].content) + joined_content(cs.drop_first())
    }
}

impl StreamObserver {
    /// The bookkeeping of a generation that has just been started.
    pub fn new() -> (r: StreamObserver)
        ensures
            r@.open,
            r@.first_chunk,
            r@.model is None,
            r@.content == Seq::<char>::empty(),
            r@.calls == Map::<int, CallView>::empty(),
    {
        StreamObserver {
            open: true,
            first_chunk: true,
            model: None,
            content: String::new(),
            tool_calls: ToolCallAccumulator::new(),
        }
    }

    /// Whether the generation is still open.
    pub fn is_open(&self) -> (r: bool)
        ensures
            r == self@.open,
    {
        self.open
    }

    /// Take in one chunk. The completion start is marked on the first chunk,
    /// and the chunk's usage recorded, while the generation is open.
    pub fn on_chunk(&mut self, chunk: &StreamChunk) -> (r: ChunkEffects)
        ensures
            final(self)@ == after_chunk(old(self)@, *chunk),
            r.mark_completion_start == (old(self)@.first_chunk && old(self)@.open),
            r.usage == (if old(self)@.open {
                chunk.usage
            } else {
                None
            }),
    {
        let mark = self.first_chunk && self.open;
        self.first_chunk = false;
        if self.model.is_none() {
            self.model = Some(copy_string(&chunk.model));
        }
        match &chunk.content {
            Some(c) => append_str(&mut self.content, c.as_str()),
            None => {},
        }
        self.tool_calls.accumulate(&chunk.tool_calls);
        let usage = if self.open {
            chunk.usage
        } else {
            None
        };
        proof {
            assert(self.content@ =~= old(self)@.content + delta_text(chunk.content));
        }
        ChunkEffects { mark_completion_start: mark, usage }
    }

    /// End the generation with what has been accumulated: the model, the
    /// content when there is any, and the tool calls when any is non-empty.
    /// Only the first call ends it; later calls return `None`.
    pub fn finalize(&mut self) -> (r: Option<GenerationSummary>)
        ensures
            !final(self)@.open,
            final(self)@.first_chunk == old(self)@.first_chunk,
            final(self)@.model == old(self)@.model,
            final(self)@.content == old(self)@.content,
            final(self)@.calls == old(self)@.calls,
            !old(self)@.open ==> r is None,
            old(self)@.open ==> (r matches Some(s) && opt_view(s.model) == old(self)@.model
                && opt_view(s.output) == (if old(self)@.content.len() > 0 {
                Some(old(self)@.content)
            } else {
                None
            }) && match s.tool_calls {
                Some(v) => lists_nonempty_in_order(
                    old(self)@.calls,
                    v@.map_values(|c: AccumulatedToolCall| c@),
                ) && v@.len() > 0,
                None => !exists|k: int| #[trigger] old(self)@.calls.contains_key(k)
                    && !call_is_empty(old(self)@.calls[k]),
            }),
    {
        if !self.open {
            return None;
        }
        self.open = false;
        let output = if self.content.as_str().is_empty() {
            None
        } else {
            Some(copy_string(&self.content))
        };
        let tool_calls = if self.tool_calls.has_calls() {
            let v = self.tool_calls.finalize();
            proof {
                crate::tool_calls::lemma_has_calls_iff_finalize_nonempty(
                    self.tool_calls@,
                    v@.map_values(|c: AccumulatedToolCall| c@),
                );
            }
            Some(v)
        } else {
            None
        };
        Some(GenerationSummary { model: copy_opt_string(&self.model), output, tool_calls })
    }
}

/// After any sequence of chunks from the start, the content is the chunks'
/// deltas joined in order, and the model is that of the first chunk.
pub proof fn lemma_stream_content_joined(cs: Seq<StreamChunk>, v: StreamObserverView)
    requires
        v.model is None,
        v.content == Seq::<char>::empty(),
    ensures
        after_chunks(v, cs).content == joined_content(cs),
        cs.len() > 0 ==> after_chunks(v, cs).model == Some(cs[0].model@),
        cs.len() == 0 ==> after_chunks(v, cs).model is None,
{
    lemma_after_chunks_general(cs, v);
}

proof fn lemma_after_chunks_general(cs: Seq<StreamChunk>, v: StreamObserverView)
    ensures
        after_chunks(v, cs).content == v.content + joined_content(cs),
        v.model is Some ==> after_chunks(v, cs).model == v.model,
        v.model is None && cs.len() > 0 ==> after_chunks(v, cs).model == Some(cs[0].model@),
        v.model is None && cs.len() == 0 ==> after_chunks(v, cs).model is None,
        cs.len() > 0 ==> !after_chunks(v, cs).first_chunk,
    decreases cs.len(),
{
    if cs.len() == 0 {
        assert(v.content + joined_content(cs) =~= v.content);
    } else {
        let w = after_chunk(v, cs[0]);
        lemma_after_chunks_general(cs.drop_first(), w);
        assert(v.content + joined_content(cs) =~= w.content + joined_content(cs.drop_first()));
    }
}

/// The items of an observed stream or iterator, collected as they pass and
/// handed over once when it is exhausted.
#[derive(Debug)]
pub struct OutputCollector {
    open: bool,
    collected: Vec<String>,
}

/// The state of an [`OutputCollector`].
pub struct CollectorView {
    /// Not yet handed over.
    pub open: bool,
    /// The serialised items so far, in order.
    pub collected: Seq<Seq<char>>,
}

impl View for OutputCollector {
    type V = CollectorView;

    closed spec fn view(&self) -> CollectorView {
        CollectorView { open: self.open, collected: strings_view(self.collected@) }
    }
}

impl OutputCollector {
    /// A collector with nothing collected.
    pub fn new() -> (r: OutputCollector)
        ensures
            r@.open,
            r@.collected == Seq::<Seq<char>>::empty(),
    {
        let r = OutputCollector { open: true, collected: Vec::new() };
        assert(r@.collected =~= Seq::<Seq<char>>::empty());
        r
    }

    /// Number of items collected.
    pub fn len(&self) -> (r: usize)
        ensures
            r == self@.collected.len(),
    {
        self.collected.len()
    }

    /// Take in the JSON text of one item; an item that could not be
    /// serialised (`None`) is passed over.
    pub fn on_item(&mut self, json: Option<String>)
        ensures
            final(self)@.open == old(self)@.open,
            final(self)@.collected == match json {
                Some(j) => old(self)@.collected.push(j@),
                None => old(self)@.collected,
            },
    {
        match json {
            Some(j) => {
                self.collected.push(j);
                proof {
                    assert(strings_view(self.collected@) =~= old(self)@.collected.push(
                        self.collected@.last()@,
                    ));
                }
            },
            None => {},
        }
    }

    /// Hand over the collected items when the stream or iterator is
    /// exhausted; only the first call hands them over.
    pub fn finish(&mut self) -> (r: Option<Vec<String>>)
        ensures
            !final(self)@.open,
            final(self)@.collected == old(self)@.collected,
            old(self)@.open ==> (r matches Some(v) && strings_view(v@) == old(self)@.collected),
            !old(self)@.open ==> r is None,
    {
        if !self.open {
            return None;
        }
        self.open = false;
        Some(crate::chars::copy_strings(&self.collected))
    }
}

} // verus!
