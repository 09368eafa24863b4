//! Decisions behind the `observe` instrumentation: reading its arguments,
//! recognising stream and iterator return types, and planning how an
//! instrumented function is wrapped.
//!
//! The arguments arrive as a list of `key = value` items; a plan says which
//! observation is opened, what is captured, whether the result is wrapped
//! and whether the observation is ended when the body returns.

use vstd::prelude::*;

use crate::chars::{
    append_str, contains_seq, contains_str, copy_opt_string, copy_string, copy_strings, opt_view,
    owned, str_eq, strings_view,
};
use crate::types::{observation_type_named, ObservationType};

verus! {

broadcast use vstd::string::group_string_axioms;

/// The value of one `key = value` argument.
pub enum ObserveArg {
    /// `key = "text"`; the key is `None` when the left side is not a single
    /// identifier.
    Str {
        /// The key.
        key: Option<String>,
        /// The string literal.
        value: String,
    },
    /// `key = true` or `key = false`.
    Bool {
        /// The key.
        key: Option<String>,
        /// The boolean literal.
        value: bool,
    },
    /// A bare flag, `key` alone: `capture_input` and `capture_output` turn
    /// the capture on, as `capture_input = true` would.
    Flag {
        /// The key; `None` when it is not a single identifier.
        key: Option<String>,
    },
    /// Anything that is not a `key = literal` pair of those two kinds.
    Other,
}

/// The arguments of `observe`.
#[derive(Debug)]
pub struct ObserveArgs {
    /// Name of the observation; the function's name when absent.
    pub name: Option<String>,
    /// Observation type by wire name; `span` when absent.
    pub as_type: Option<String>,
    /// Record the function's arguments as input.
    pub capture_input: bool,
    /// Record the function's result as output.
    pub capture_output: bool,
    /// Path of a function that turns collected stream or iterator items into
    /// the output text.
    pub transform_to_string: Option<String>,
}

/// The arguments by their characters.
pub struct ObserveArgsView {
    /// Name of the observation.
    pub name: Option<Seq<char>>,
    /// Observation type by wire name.
    pub as_type: Option<Seq<char>>,
    /// Record the input.
    pub capture_input: bool,
    /// Record the output.
    pub capture_output: bool,
    /// Transform path.
    pub transform_to_string: Option<Seq<char>>,
}

impl View for ObserveArgs {
    type V = ObserveArgsView;

    open spec fn view(&self) -> ObserveArgsView {
        ObserveArgsView {
            name: opt_view(self.name),
            as_type: opt_view(self.as_type),
            capture_input: self.capture_input,
            capture_output: self.capture_output,
            transform_to_string: opt_view(self.transform_to_string),
        }
    }
}

/// Why the arguments were refused.
#[derive(Debug)]
pub enum ObserveArgError {
    /// The left side of a pair is not a single identifier.
    ExpectedIdentifier,
    /// `as_type` names no observation type.
    InvalidAsType {
        /// The value given.
        value: String,
    },
    /// A key that `observe` does not know (or of the wrong literal kind).
    UnknownAttribute {
        /// The key given.
        key: String,
    },
    /// An argument that is not a `key = value` pair.
    ExpectedKeyValue,
}

/// A refusal by its characters.
pub enum ArgFault {
    /// See [`ObserveArgError::ExpectedIdentifier`].
    ExpectedIdentifier,
    /// See [`ObserveArgError::InvalidAsType`].
    InvalidAsType(Seq<char>),
    /// See [`ObserveArgError::UnknownAttribute`].
    UnknownAttribute(Seq<char>),
    /// See [`ObserveArgError::ExpectedKeyValue`].
    ExpectedKeyValue,
}

/// The refusal an error stands for.
pub open spec fn fault_of(e: ObserveArgError) -> ArgFault {
    match e {
        ObserveArgError::ExpectedIdentifier => ArgFault::ExpectedIdentifier,
        ObserveArgError::InvalidAsType { value } => ArgFault::InvalidAsType(value@),
        ObserveArgError::UnknownAttribute { key } => ArgFault::UnknownAttribute(key@),
        ObserveArgError::ExpectedKeyValue => ArgFault::ExpectedKeyValue,
    }
}

/// The arguments when none are given.
pub open spec fn default_args() -> ObserveArgsView {
    ObserveArgsView {
        name: None,
        as_type: None,
        capture_input: true,
        capture_output: true,
        transform_to_string: None,
    }
}

/// One argument applied to the arguments read so far.
pub open spec fn apply_arg(st: ObserveArgsView, a: ObserveArg) -> Result<ObserveArgsView, ArgFault> {
    match a {
        ObserveArg::Str { key, value } => match key {
            None => Err(ArgFault::ExpectedIdentifier),
            Some(k) => if k@ == "name"@ {
                Ok(ObserveArgsView { name: Some(value@), ..st })
            } else if k@ == "as_type"@ {
                if observation_type_named(value@) is Some {
                    Ok(ObserveArgsView { as_type: Some(value@), ..st })
                } else {
                    Err(ArgFault::InvalidAsType(value@))
                }
            } else if k@ == "transform_to_string"@ {
                Ok(ObserveArgsView { transform_to_string: Some(value@), ..st })
            } else {
                Err(ArgFault::UnknownAttribute(k@))
            },
        },
        ObserveArg::Bool { key, value } => match key {
            None => Err(ArgFault::ExpectedIdentifier),
            Some(k) => if k@ == "capture_input"@ {
                Ok(ObserveArgsView { capture_input: value, ..st })
            } else if k@ == "capture_output"@ {
                Ok(ObserveArgsView { capture_output: value, ..st })
            } else {
                Err(ArgFault::UnknownAttribute(k@))
            },
        },
        ObserveArg::Flag { key } => match key {
            Some(k) => if k@ == "capture_input"@ {
                Ok(ObserveArgsView { capture_input: true, ..st })
            } else if k@ == "capture_output"@ {
                Ok(ObserveArgsView { capture_output: true, ..st })
            } else {
                Err(ArgFault::ExpectedKeyValue)
            },
            None => Err(ArgFault::ExpectedKeyValue),
        },
        ObserveArg::Other => Err(ArgFault::ExpectedKeyValue),
    }
}

/// The arguments applied in order; the first refused one decides the error.
pub open spec fn apply_args(st: ObserveArgsView, args: Seq<ObserveArg>) -> Result<
    ObserveArgsView,
    ArgFault,
>
    decreases args.len(),
{
    if args.len() == 0 {
        Ok(st)
    } else {
        match apply_arg(st, args[0]) {
            Ok(next) => apply_args(next, args.drop_first()),
            Err(f) => Err(f),
        }
    }
}

impl ObserveArgs {
    /// The arguments when none are given: no name, no type, input and output
    /// captured, no transform.
    pub fn new() -> (r: ObserveArgs)
        ensures
            r@ == default_args(),
    {
        ObserveArgs {
            name: None,
            as_type: None,
            capture_input: true,
            capture_output: true,
            transform_to_string: None,
        }
    }

    fn apply(&mut self, a: &ObserveArg) -> (r: Result<(), ObserveArgError>)
        ensures
            match apply_arg(old(self)@, *a) {
                Ok(v) => r is Ok && final(self)@ == v,
                Err(f) => r matches Err(e) && fault_of(e) == f,
            },
    {
        match a {
            ObserveArg::Str { key, value } => match key {
                None => Err(ObserveArgError::ExpectedIdentifier),
                Some(k) => {
                    if str_eq(k.as_str(), "name") {
                        self.name = Some(copy_string(value));
                        Ok(())
                    } else if str_eq(k.as_str(), "as_type") {
                        if ObservationType::from_name(value.as_str()).is_some() {
                            self.as_type = Some(copy_string(value));
                            Ok(())
                        } else {
                            Err(ObserveArgError::InvalidAsType { value: copy_string(value) })
                        }
                    } else if str_eq(k.as_str(), "transform_to_string") {
                        self.transform_to_string = Some(copy_string(value));
                        Ok(())
                    } else {
                        Err(ObserveArgError::UnknownAttribute { key: copy_string(k) })
                    }
                },
            },
            ObserveArg::Bool { key, value } => match key {
                None => Err(ObserveArgError::ExpectedIdentifier),
                Some(k) => {
                    if str_eq(k.as_str(), "capture_input") {
                        self.capture_input = *value;
                        Ok(())
                    } else if str_eq(k.as_str(), "capture_output") {
                        self.capture_output = *value;
                        Ok(())
                    } else {
                        Err(ObserveArgError::UnknownAttribute { key: copy_string(k) })
                    }
                },
            },
            ObserveArg::Flag { key } => match key {
                Some(k) => {
                    if str_eq(k.as_str(), "capture_input") {
                        self.capture_input = true;
                        Ok(())
                    } else if str_eq(k.as_str(), "capture_output") {
                        self.capture_output = true;
                        Ok(())
                    } else {
                        Err(ObserveArgError::ExpectedKeyValue)
                    }
                },
                None => Err(ObserveArgError::ExpectedKeyValue),
            },
            ObserveArg::Other => Err(ObserveArgError::ExpectedKeyValue),
        }
    }

    /// Read the arguments of `observe`, in order. The first argument that is
    /// not a known `key = value` pair refuses the whole list.
    pub fn from_args(args: &Vec<ObserveArg>) -> (r: Result<ObserveArgs, ObserveArgError>)
        ensures
            match apply_args(default_args(), args@) {
                Ok(v) => r matches Ok(a) && a@ == v,
                Err(f) => r matches Err(e) && fault_of(e) == f,
            },
    {
        let mut st = ObserveArgs::new();
        let mut i: usize = 0;
        assert(args@.subrange(0, args@.len() as int) =~= args@);
        while i < args.len()
            invariant
                i <= args@.len(),
                apply_args(default_args(), args@) == apply_args(
                    st@,
                    args@.subrange(i as int, args@.len() as int),
                ),
            decreases args.len() - i,
        {
            let ghost rest = args@.subrange(i as int, args@.len() as int);
            assert(rest[0] == args@[i as int]);
            assert(rest.drop_first() =~= args@.subrange(i + 1, args@.len() as int));
            match st.apply(&args[i]) {
                Ok(()) => {},
                Err(e) => {
                    return Err(e);
                },
            }
            i = i + 1;
        }
        assert(args@.subrange(i as int, args@.len() as int) =~= Seq::<ObserveArg>::empty());
        Ok(st)
    }
}

/// The text of a refusal.
pub open spec fn fault_text(f: ArgFault) -> Seq<char> {
    match f {
        ArgFault::ExpectedIdentifier => "expected identifier"@,
        ArgFault::InvalidAsType(_) => "as_type must be one of: span, generation, event, embedding, agent, tool, chain, retriever, evaluator, guardrail"@,
        ArgFault::UnknownAttribute(k) => "unknown observe attribute: `"@ + k + "`"@,
        ArgFault::ExpectedKeyValue => "expected `key = value` pair (e.g. `name = \"my-span\"`)"@,
    }
}

impl ObserveArgError {
    /// The message reported for the refusal.
    pub fn message(&self) -> (r: String)
        ensures
            r@ == fault_text(fault_of(*self)),
    {
        match self {
            ObserveArgError::ExpectedIdentifier => owned("expected identifier"),
            ObserveArgError::InvalidAsType { .. } => owned(
                "as_type must be one of: span, generation, event, embedding, agent, tool, chain, retriever, evaluator, guardrail",
            ),
            ObserveArgError::UnknownAttribute { key } => {
                let mut r = owned("unknown observe attribute: `");
                append_str(&mut r, key.as_str());
                append_str(&mut r, "`");
                r
            },
            ObserveArgError::ExpectedKeyValue => owned(
                "expected `key = value` pair (e.g. `name = \"my-span\"`)",
            ),
        }
    }
}

/// How the result of an instrumented function is wrapped.
#[derive(Debug, Clone, Copy, PartialEq, Eq, Structural)]
pub enum ReturnWrapper {
    /// The result is a stream: its items are collected as they pass.
    Stream,
    /// The result is an iterator: its items are collected as they pass.
    Iterator,
}

/// The wrapper for a return type given by its text: a type that mentions
/// `Stream` is a stream, otherwise one that mentions `Iterator` is an
/// iterator; a function without a return type gets none.
pub open spec fn return_wrapper_of(ret: Option<Seq<char>>) -> Option<ReturnWrapper> {
    match ret {
        None => None,
        Some(t) => if contains_seq(t, "Stream"@) {
            Some(ReturnWrapper::Stream)
        } else if contains_seq(t, "Iterator"@) {
            Some(ReturnWrapper::Iterator)
        } else {
            None
        },
    }
}

/// Detect whether the return type (by its text) is a stream or an iterator.
pub fn detect_return_wrapper(return_type: &Option<String>) -> (r: Option<ReturnWrapper>)
    ensures
        r == return_wrapper_of(opt_view(*return_type)),
{
    match return_type {
        None => None,
        Some(t) => {
            if contains_str(t.as_str(), "Stream") {
                Some(ReturnWrapper::Stream)
            } else if contains_str(t.as_str(), "Iterator") {
                Some(ReturnWrapper::Iterator)
            } else {
                None
            }
        },
    }
}

/// The observation type named by `as_type`, or `Span` for any other name.
pub open spec fn observation_type_or_span(s: Seq<char>) -> ObservationType {
    match observation_type_named(s) {
        Some(t) => t,
        None => ObservationType::Span,
    }
}

/// The observation type named by `as_type`, or `Span` for any other name.
pub fn observation_type_for(as_type: &str) -> (r: ObservationType)
    ensures
        r == observation_type_or_span(as_type@),
{
    match ObservationType::from_name(as_type) {
        Some(t) => t,
        None => ObservationType::Span,
    }
}

/// The helper that runs an instrumented async function.
#[derive(Debug, Clone, Copy, PartialEq, Eq, Structural)]
pub enum AsyncHelper {
    /// `with_generation`.
    Generation,
    /// `with_agent`.
    Agent,
    /// `with_tool`.
    Tool,
    /// `with_chain`.
    Chain,
    /// `with_retriever`.
    Retriever,
    /// `with_evaluator`.
    Evaluator,
    /// `with_guardrail`.
    Guardrail,
    /// `with_embedding`.
    Embedding,
    /// `with_observation` with an explicit type.
    Observation(ObservationType),
}

/// The async helper for an observation type: each type with a helper of its
/// own gets it; spans and events go through `with_observation`.
pub open spec fn async_helper_spec(t: ObservationType) -> AsyncHelper {
    match t {
        ObservationType::Generation => AsyncHelper::Generation,
        ObservationType::Agent => AsyncHelper::Agent,
        ObservationType::Tool => AsyncHelper::Tool,
        ObservationType::Chain => AsyncHelper::Chain,
        ObservationType::Retriever => AsyncHelper::Retriever,
        ObservationType::Evaluator => AsyncHelper::Evaluator,
        ObservationType::Guardrail => AsyncHelper::Guardrail,
        ObservationType::Embedding => AsyncHelper::Embedding,
        _ => AsyncHelper::Observation(t),
    }
}

/// The observation type that an async helper records: each `with_<type>`
/// helper records its own type, `with_observation` the type it is given.
pub open spec fn helper_observation_type(h: AsyncHelper) -> ObservationType {
    match h {
        AsyncHelper::Generation => ObservationType::Generation,
        AsyncHelper::Agent => ObservationType::Agent,
        AsyncHelper::Tool => ObservationType::Tool,
        AsyncHelper::Chain => ObservationType::Chain,
        AsyncHelper::Retriever => ObservationType::Retriever,
        AsyncHelper::Evaluator => ObservationType::Evaluator,
        AsyncHelper::Guardrail => ObservationType::Guardrail,
        AsyncHelper::Embedding => ObservationType::Embedding,
        AsyncHelper::Observation(t) => t,
    }
}

/// How an instrumented synchronous function opens its observation.
#[derive(Debug, Clone, Copy, PartialEq, Eq, Structural)]
pub enum SyncStart {
    /// `LangfuseGeneration::start`.
    Generation,
    /// `LangfuseEmbedding::start`.
    Embedding,
    /// `LangfuseSpan::start_with_type`.
    Span(ObservationType),
}

/// The start of a synchronous observation of type `t`.
pub open spec fn sync_start_spec(t: ObservationType) -> SyncStart {
    match t {
        ObservationType::Generation => SyncStart::Generation,
        ObservationType::Embedding => SyncStart::Embedding,
        _ => SyncStart::Span(t),
    }
}

/// The observation type that a synchronous start records.
pub open spec fn sync_start_type(s: SyncStart) -> ObservationType {
    match s {
        SyncStart::Generation => ObservationType::Generation,
        SyncStart::Embedding => ObservationType::Embedding,
        SyncStart::Span(t) => t,
    }
}

/// The observation type that an entry records.
pub open spec fn entry_observation_type(e: ObserveEntry) -> ObservationType {
    match e {
        ObserveEntry::Async(h) => helper_observation_type(h),
        ObserveEntry::Sync(s) => sync_start_type(s),
    }
}

/// An instrumented function is observed as the type it asks for: the helper
/// (async) or start (sync) chosen for a type records that very type, and a
/// type with a helper of its own is never routed through
/// `with_observation`.
pub proof fn lemma_entry_records_requested_type(t: ObservationType)
    ensures
        helper_observation_type(async_helper_spec(t)) == t,
        sync_start_type(sync_start_spec(t)) == t,
        async_helper_spec(t) is Observation <==> (t == ObservationType::Span || t
            == ObservationType::Event),
{
}

/// `as_type = "<name>"` with the wire name of a type plans an observation of
/// that type, whose entry (async helper or sync start) records it.
pub proof fn lemma_as_type_plans_that_type(a: ObserveArgsView, t: ObservationType)
    requires
        a.as_type == Some(crate::types::observation_type_name(t)),
    ensures
        plan_type(a) == t,
        helper_observation_type(async_helper_spec(plan_type(a))) == t,
        sync_start_type(sync_start_spec(plan_type(a))) == t,
{
    crate::types::lemma_observation_type_name_round_trip(t);
}

/// How the instrumented function opens its observation.
#[derive(Debug, Clone, Copy, PartialEq, Eq, Structural)]
pub enum ObserveEntry {
    /// Through an async helper.
    Async(AsyncHelper),
    /// Directly, for a synchronous function.
    Sync(SyncStart),
}

/// The wrapping of one instrumented function.
#[derive(Debug)]
pub struct ObservePlan {
    /// Name of the observation.
    pub span_name: String,
    /// How the observation is opened.
    pub entry: ObserveEntry,
    /// Whether the arguments are recorded as input.
    pub capture_input: bool,
    /// Names of the recorded arguments, in order.
    pub input_keys: Vec<String>,
    /// Whether the result is recorded as output when the body returns.
    pub capture_output: bool,
    /// How the result is wrapped, if at all.
    pub wrapper: Option<ReturnWrapper>,
    /// Transform applied to the collected items of a wrapped result.
    pub transform: Option<String>,
    /// Whether the observation is ended when the body returns (otherwise the
    /// wrapper ends it when the stream or iterator is exhausted).
    pub end_span: bool,
}

/// The observation type of a plan for arguments `a`.
pub open spec fn plan_type(a: ObserveArgsView) -> ObservationType {
    match a.as_type {
        Some(t) => observation_type_or_span(t),
        None => ObservationType::Span,
    }
}

/// Plan the wrapping of a function named `fn_name`, async or not, with the
/// given return type text and argument names.
pub fn plan_observe(
    args: &ObserveArgs,
    fn_name: &str,
    is_async: bool,
    return_type: &Option<String>,
    param_names: &Vec<String>,
) -> (r: ObservePlan)
    ensures
        r.span_name@ == (match args.name {
            Some(n) => n@,
            None => fn_name@,
        }),
        r.entry == (if is_async {
            ObserveEntry::Async(async_helper_spec(plan_type(args@)))
        } else {
            ObserveEntry::Sync(sync_start_spec(plan_type(args@)))
        }),
        r.entry is Async <==> is_async,
        entry_observation_type(r.entry) == plan_type(args@),
        r.wrapper == return_wrapper_of(opt_view(*return_type)),
        r.capture_input == (args.capture_input && param_names@.len() > 0),
        strings_view(r.input_keys@) == strings_view(param_names@),
        r.capture_output == (args.capture_output && r.wrapper is None),
        r.end_span == r.wrapper is None,
        opt_view(r.transform) == (if r.wrapper is Some {
            opt_view(args.transform_to_string)
        } else {
            None
        }),
{
    let span_name = match &args.name {
        Some(n) => copy_string(n),
        None => owned(fn_name),
    };
    let t = match &args.as_type {
        Some(a) => observation_type_for(a.as_str()),
        None => ObservationType::Span,
    };
    let entry = if is_async {
        let h = match t {
            ObservationType::Generation => AsyncHelper::Generation,
            ObservationType::Agent => AsyncHelper::Agent,
            ObservationType::Tool => AsyncHelper::Tool,
            ObservationType::Chain => AsyncHelper::Chain,
            ObservationType::Retriever => AsyncHelper::Retriever,
            ObservationType::Evaluator => AsyncHelper::Evaluator,
            ObservationType::Guardrail => AsyncHelper::Guardrail,
            ObservationType::Embedding => AsyncHelper::Embedding,
            _ => AsyncHelper::Observation(t),
        };
        ObserveEntry::Async(h)
    } else {
        let s = match t {
            ObservationType::Generation => SyncStart::Generation,
            ObservationType::Embedding => SyncStart::Embedding,
            _ => SyncStart::Span(t),
        };
        ObserveEntry::Sync(s)
    };
    let wrapper = detect_return_wrapper(return_type);
    let wrapped = wrapper.is_some();
    let transform = if wrapped {
        copy_opt_string(&args.transform_to_string)
    } else {
        None
    };
    ObservePlan {
        span_name,
        entry,
        capture_input: args.capture_input && param_names.len() > 0,
        input_keys: copy_strings(param_names),
        capture_output: args.capture_output && !wrapped,
        wrapper,
        transform,
        end_span: !wrapped,
    }
}


/// Accepted arguments name a known observation type whenever they name one
/// at all, so the `Span` fallback of [`observation_type_for`] is only reached
/// when no type is given.
pub proof fn lemma_accepted_type_is_known(args: Seq<ObserveArg>)
    requires
        apply_args(default_args(), args) is Ok,
    ensures
        apply_args(default_args(), args)->Ok_0.as_type matches Some(t) ==> observation_type_named(
            t,
        ) is Some,
{
    lemma_apply_keeps_known_type(default_args(), args);
}

proof fn lemma_apply_keeps_known_type(st: ObserveArgsView, args: Seq<ObserveArg>)
    requires
        st.as_type matches Some(t) ==> observation_type_named(t) is Some,
    ensures
        apply_args(st, args) matches Ok(v) ==> (v.as_type matches Some(t) ==> observation_type_named(
            t,
        ) is Some),
    decreases args.len(),
{
    if args.len() > 0 {
        match apply_arg(st, args[0]) {
            Ok(next) => lemma_apply_keeps_known_type(next, args.drop_first()),
            Err(_) => {},
        }
    }
}

} // verus!
