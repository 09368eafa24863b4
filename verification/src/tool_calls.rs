//! Accumulation of streamed tool-call deltas.
//!
//! A streamed chat completion sends each tool call in pieces, identified by
//! an index; each piece may carry part of the id, the type, part of the
//! function name or part of the arguments. The accumulator joins the pieces.

use vstd::prelude::*;

use std::collections::BTreeMap;

use crate::chars::{append_str, copy_string};

verus! {

/// One tool-call delta of a stream chunk.
#[derive(Debug)]
pub struct ToolCallDelta {
    /// Which tool call the delta belongs to.
    pub index: u32,
    /// A piece of the call's id.
    pub id: Option<String>,
    /// The call's type, in its wire name (e.g. `function`).
    pub call_type: Option<String>,
    /// A piece of the function name.
    pub function_name: Option<String>,
    /// A piece of the function arguments.
    pub arguments: Option<String>,
}

/// A tool call assembled from its deltas.
#[derive(Debug)]
pub struct AccumulatedToolCall {
    /// The call id.
    pub id: String,
    /// The call type.
    pub call_type: String,
    /// The function name.
    pub function_name: String,
    /// The function arguments (JSON text).
    pub function_arguments: String,
}

/// A tool call by the characters of its id, type, name and arguments.
pub type CallView = (Seq<char>, Seq<char>, Seq<char>, Seq<char>);

impl View for AccumulatedToolCall {
    type V = CallView;

    open spec fn view(&self) -> CallView {
        (self.id@, self.call_type@, self.function_name@, self.function_arguments@)
    }
}

/// A call with nothing in it.
pub open spec fn call_is_empty(c: CallView) -> bool {
    c.0.len() == 0 && c.1.len() == 0 && c.2.len() == 0 && c.3.len() == 0
}

/// The call before any delta.
pub open spec fn empty_call() -> CallView {
    (Seq::empty(), Seq::empty(), Seq::empty(), Seq::empty())
}

/// The characters of an optional piece (none for an absent piece).
pub open spec fn piece(p: Option<String>) -> Seq<char> {
    match p {
        Some(s) => s@,
        None => Seq::empty(),
    }
}

/// A call after one delta: id, name and arguments grow by their pieces; a
/// given type replaces the type.
pub open spec fn merge_delta(c: CallView, d: ToolCallDelta) -> CallView {
    (
        c.0 + piece(d.id),
        match d.call_type {
            Some(t) => t@,
            None => c.1,
        },
        c.2 + piece(d.function_name),
        c.3 + piece(d.arguments),
    )
}

/// The calls after one delta.
pub open spec fn apply_delta(m: Map<int, CallView>, d: ToolCallDelta) -> Map<int, CallView> {
    let old_call = if m.contains_key(d.index as int) {
        m[d.index as int]
    } else {
        empty_call()
    };
    m.insert(d.index as int, merge_delta(old_call, d))
}

/// The calls after a sequence of deltas, applied in order.
pub open spec fn apply_deltas(m: Map<int, CallView>, ds: Seq<ToolCallDelta>) -> Map<int, CallView>
    decreases ds.len(),
{
    if ds.len() == 0 {
        m
    } else {
        apply_deltas(apply_delta(m, ds[0]), ds.drop_first())
    }
}

/// Keys in strictly increasing order.
pub open spec fn strictly_increasing(ks: Seq<int>) -> bool {
    forall|i: int, j: int| 0 <= i < j < ks.len() ==> #[trigger] ks[i] < #[trigger] ks[j]
}

/// `r` lists the non-empty calls of `m`, each once, in increasing index order.
pub open spec fn lists_nonempty_in_order(m: Map<int, CallView>, r: Seq<CallView>) -> bool {
    exists|ks: Seq<int>|
        {
            &&& strictly_increasing(ks)
            &&& ks.len() == r.len()
            &&& forall|i: int|
                0 <= i < ks.len() ==> m.contains_key(#[trigger] ks[i]) && m[ks[i]] == r[i]
                    && !call_is_empty(r[i])
            &&& forall|k: int|
                #[trigger] m.contains_key(k) && !call_is_empty(m[k]) ==> exists|i: int|
                    0 <= i < ks.len() && ks[i] == k
        }
}

/// Accumulated state for tool call deltas during streaming: the calls by
/// their index, kept in index order.
#[derive(Debug)]
pub struct ToolCallAccumulator {
    calls: BTreeMap<usize, AccumulatedToolCall>,
}

/// The calls of a map by index, as views.
pub open spec fn calls_view(m: Map<usize, AccumulatedToolCall>) -> Map<int, CallView> {
    Map::new(
        |k: int| 0 <= k <= usize::MAX && m.contains_key(k as usize),
        |k: int| m[k as usize]@,
    )
}

impl View for ToolCallAccumulator {
    type V = Map<int, CallView>;

    closed spec fn view(&self) -> Map<int, CallView> {
        calls_view(self.calls@)
    }
}

impl AccumulatedToolCall {
    /// Whether nothing has been accumulated in the call.
    pub fn is_empty(&self) -> (r: bool)
        ensures
            r == call_is_empty(self@),
    {
        self.id.as_str().is_empty() && self.call_type.as_str().is_empty()
            && self.function_name.as_str().is_empty() && self.function_arguments.as_str().is_empty()
    }

    /// A copy of the call.
    pub fn duplicate(&self) -> (r: AccumulatedToolCall)
        ensures
            r@ == self@,
    {
        AccumulatedToolCall {
            id: copy_string(&self.id),
            call_type: copy_string(&self.call_type),
            function_name: copy_string(&self.function_name),
            function_arguments: copy_string(&self.function_arguments),
        }
    }
}

fn merge_into(c: &mut AccumulatedToolCall, d: &ToolCallDelta)
    ensures
        final(c)@ == merge_delta(old(c)@, *d),
{
    match &d.id {
        Some(s) => append_str(&mut c.id, s.as_str()),
        None => {},
    }
    match &d.call_type {
        Some(t) => {
            c.call_type = copy_string(t);
        },
        None => {},
    }
    match &d.function_name {
        Some(s) => append_str(&mut c.function_name, s.as_str()),
        None => {},
    }
    match &d.arguments {
        Some(s) => append_str(&mut c.function_arguments, s.as_str()),
        None => {},
    }
    proof {
        assert(c.id@ =~= old(c).id@ + piece(d.id));
        assert(c.function_name@ =~= old(c).function_name@ + piece(d.function_name));
        assert(c.function_arguments@ =~= old(c).function_arguments@ + piece(d.arguments));
    }
}

impl ToolCallAccumulator {
    /// Create a new empty accumulator.
    pub fn new() -> (r: ToolCallAccumulator)
        ensures
            r@ == Map::<int, CallView>::empty(),
    {
        let r = ToolCallAccumulator { calls: BTreeMap::new() };
        assert(r@ =~= Map::<int, CallView>::empty());
        r
    }

    /// Merge one delta into the accumulated state.
    pub fn accumulate_one(&mut self, d: &ToolCallDelta)
        ensures
            final(self)@ == apply_delta(old(self)@, *d),
    {
        let idx = d.index as usize;
        let ghost old_m = self.calls@;
        let mut c = match self.calls.remove(&idx) {
            Some(c) => c,
            None => AccumulatedToolCall {
                id: String::new(),
                call_type: String::new(),
                function_name: String::new(),
                function_arguments: String::new(),
            },
        };
        assert(c@ == (if old_m.contains_key(idx) { old_m[idx]@ } else { empty_call() }));
        merge_into(&mut c, d);
        self.calls.insert(idx, c);
        proof {
            let m = apply_delta(calls_view(old_m), *d);
            assert(self.calls@ == old_m.remove(idx).insert(idx, c));
            assert(calls_view(self.calls@) =~= m);
        }
    }

    /// Merge a stream chunk's tool call deltas into the accumulated state, in
    /// order. A chunk without tool calls passes an empty list.
    pub fn accumulate(&mut self, deltas: &Vec<ToolCallDelta>)
        ensures
            final(self)@ == apply_deltas(old(self)@, deltas@),
    {
        let mut i: usize = 0;
        assert(deltas@.subrange(0, deltas@.len() as int) =~= deltas@);
        while i < deltas.len()
            invariant
                i <= deltas@.len(),
                apply_deltas(old(self)@, deltas@) == apply_deltas(
                    self@,
                    deltas@.subrange(i as int, deltas@.len() as int),
                ),
            decreases deltas.len() - i,
        {
            proof {
                assert(deltas@.subrange(i as int, deltas@.len() as int).drop_first()
                    =~= deltas@.subrange(i + 1, deltas@.len() as int));
            }
            self.accumulate_one(&deltas[i]);
            i = i + 1;
        }
        assert(deltas@.subrange(i as int, deltas@.len() as int) =~= Seq::<ToolCallDelta>::empty());
    }

    /// Returns `true` when at least one non-empty tool call has been accumulated.
    pub fn has_calls(&self) -> (r: bool)
        ensures
            r == exists|k: int| #[trigger] self@.contains_key(k) && !call_is_empty(self@[k]),
    {
        let ghost s = vstd::std_specs::iter::IteratorSpec::remaining(&self.calls.iter());
        for kv in it: self.calls.iter()
            invariant
                it.seq() == s,
                forall|i: int| 0 <= i < it.index() ==> call_is_empty((#[trigger] it.seq()[i]).1@),
        {
            if !kv.1.is_empty() {
                assert(self.calls@.contains_key(*kv.0) && self.calls@[*kv.0] == *kv.1);
                assert(self@.contains_key(*kv.0 as int));
                return true;
            }
        }
        assert forall|k: int| #[trigger] self@.contains_key(k) implies call_is_empty(self@[k]) by {
            let ku = k as usize;
            assert(s.contains((&ku, &self.calls@[ku])));
        }
        false
    }

    /// The accumulated non-empty tool calls, in increasing index order.
    pub fn finalize(&self) -> (r: Vec<AccumulatedToolCall>)
        ensures
            lists_nonempty_in_order(self@, r@.map_values(|c: AccumulatedToolCall| c@)),
    {
        let ghost s = vstd::std_specs::iter::IteratorSpec::remaining(&self.calls.iter());
        let mut r: Vec<AccumulatedToolCall> = Vec::new();
        let ghost mut ks: Seq<int> = Seq::empty();
        let ghost mut js: Seq<int> = Seq::empty();
        for kv in it: self.calls.iter()
            invariant
                it.seq() == s,
                s.len() == self.calls@.dom().len(),
                forall|i: int| 0 <= i < s.len() ==> self.calls@.contains_key(*(#[trigger] s[i]).0)
                    && self.calls@[*s[i].0] == *s[i].1,
                vstd::std_specs::btree::increasing_seq(
                    s.map_values(|kv: (&usize, &AccumulatedToolCall)| *kv.0),
                ),
                ks.len() == r@.len(),
                js.len() == r@.len(),
                forall|a: int|
                    0 <= a < ks.len() ==> 0 <= #[trigger] js[a] < it.index() && *s[js[a]].0 == ks[a]
                        && s[js[a]].1@ == r@[a]@,
                forall|a: int, b: int| 0 <= a < b < js.len() ==> #[trigger] js[a] < #[trigger] js[b],
                forall|a: int| 0 <= a < ks.len() ==> !call_is_empty(#[trigger] r@[a]@),
                forall|j: int|
                    0 <= j < it.index() && !call_is_empty((#[trigger] s[j]).1@) ==> exists|a: int|
                        0 <= a < js.len() && js[a] == j,
        {
            if !kv.1.is_empty() {
                r.push(kv.1.duplicate());
                proof {
                    let old_js = js;
                    ks = ks.push(*kv.0 as int);
                    js = js.push(it.index());
                    assert forall|j: int|
                        0 <= j <= it.index() && !call_is_empty((#[trigger] s[j]).1@) implies exists|a: int|
                        0 <= a < js.len() && js[a] == j by {
                        if j < it.index() {
                            let a = choose|a: int| 0 <= a < old_js.len() && old_js[a] == j;
                            assert(js[a] == old_js[a]);
                        } else {
                            assert(js[js.len() - 1] == j);
                        }
                    }
                }
            }
        }
        proof {
            let rv = r@.map_values(|c: AccumulatedToolCall| c@);
            let m = self@;
            let keys = s.map_values(|kv: (&usize, &AccumulatedToolCall)| *kv.0);
            assert forall|a: int, b: int| 0 <= a < b < ks.len() implies #[trigger] ks[a] < #[trigger] ks[b] by {
                assert(keys[js[a]] == *s[js[a]].0);
                assert(keys[js[b]] == *s[js[b]].0);
                lemma_increasing_keys(keys, js[a], js[b]);
            }
            assert forall|a: int| 0 <= a < ks.len() implies m.contains_key(#[trigger] ks[a]) && m[ks[a]]
                == rv[a] && !call_is_empty(rv[a]) by {
                let j = js[a];
                assert(self.calls@.contains_key(*s[j].0));
            }
            assert forall|k: int| #[trigger] m.contains_key(k) && !call_is_empty(m[k]) implies exists|a: int|
                0 <= a < ks.len() && ks[a] == k by {
                let ku = k as usize;
                assert(s.contains((&ku, &self.calls@[ku])));
                let j = choose|j: int| 0 <= j < s.len() && s[j] == (&ku, &self.calls@[ku]);
                assert(!call_is_empty(s[j].1@));
                let a = choose|a: int| 0 <= a < js.len() && js[a] == j;
                assert(ks[a] == k);
            }
            assert(strictly_increasing(ks));
        }
        r
    }
}

/// In an increasing sequence of indices, an earlier one is smaller.
proof fn lemma_increasing_keys(keys: Seq<usize>, a: int, b: int)
    requires
        vstd::std_specs::btree::increasing_seq(keys),
        0 <= a < b < keys.len(),
    ensures
        keys[a] < keys[b],
{
    assert(vstd::std_specs::cmp::OrdSpec::cmp_spec(&keys[a], &keys[b]) is Less);
}

impl Default for ToolCallAccumulator {
    fn default() -> (r: Self)
        ensures
            r@ == Map::<int, CallView>::empty(),
    {
        ToolCallAccumulator::new()
    }
}

/// `has_calls` holds exactly when `finalize` lists at least one call.
pub proof fn lemma_has_calls_iff_finalize_nonempty(m: Map<int, CallView>, r: Seq<CallView>)
    requires
        lists_nonempty_in_order(m, r),
    ensures
        (exists|k: int| #[trigger] m.contains_key(k) && !call_is_empty(m[k])) <==> r.len() > 0,
{
    let ks = choose|ks: Seq<int>|
        {
            &&& strictly_increasing(ks)
            &&& ks.len() == r.len()
            &&& forall|i: int|
                0 <= i < ks.len() ==> m.contains_key(#[trigger] ks[i]) && m[ks[i]] == r[i]
                    && !call_is_empty(r[i])
            &&& forall|k: int|
                #[trigger] m.contains_key(k) && !call_is_empty(m[k]) ==> exists|i: int|
                    0 <= i < ks.len() && ks[i] == k
        };
    if r.len() > 0 {
        assert(m.contains_key(ks[0]) && !call_is_empty(m[ks[0]]));
    }
}


/// What the output of a chat completion is read from: its first choice's
/// number of tool calls (zero when it has none) and its text content.
#[derive(Debug)]
pub struct ChoiceOutline {
    /// How many tool calls the message makes.
    pub tool_call_count: usize,
    /// The message's text, if any.
    pub content: Option<String>,
}

/// The recorded output of a chat completion.
#[derive(Debug)]
pub enum CompletionOutput {
    /// `null`: no choice, or a message without text or tool calls.
    Null,
    /// The whole message, serialised: it makes tool calls.
    Message,
    /// The message's text.
    Text(String),
}

/// The output recorded for a completion whose first choice is `first`: the
/// whole message when it makes tool calls, else its text, else `null`.
pub fn completion_output(first: Option<ChoiceOutline>) -> (r: CompletionOutput)
    ensures
        match first {
            None => r is Null,
            Some(c) => if c.tool_call_count > 0 {
                r is Message
            } else {
                match c.content {
                    Some(t) => r matches CompletionOutput::Text(x) && x@ == t@,
                    None => r is Null,
                }
            },
        },
{
    match first {
        None => CompletionOutput::Null,
        Some(c) => if c.tool_call_count > 0 {
            CompletionOutput::Message
        } else {
            match c.content {
                Some(t) => CompletionOutput::Text(t),
                None => CompletionOutput::Null,
            }
        },
    }
}

/// Whether a completion whose first choice is `first` reports tool calls:
/// only a first choice with at least one does.
pub fn reports_tool_calls(first: &Option<ChoiceOutline>) -> (r: bool)
    ensures
        r == (first matches Some(c) && c.tool_call_count > 0),
{
    match first {
        Some(c) => c.tool_call_count > 0,
        None => false,
    }
}

} // verus!
