//! Domain types: observation kinds, severity levels, prompt and score kinds,
//! token usage, chat messages and media references.

use vstd::prelude::*;

use crate::chars::str_eq;

verus! {

broadcast use vstd::string::group_string_axioms;

/// The ten observation types supported by Langfuse.
#[derive(Debug, Clone, Copy, PartialEq, Eq, Structural)]
pub enum ObservationType {
    /// A generic span representing a unit of work.
    Span,
    /// An LLM generation (completion, embedding request).
    Generation,
    /// A discrete event within a trace.
    Event,
    /// An embedding operation.
    Embedding,
    /// An AI agent.
    Agent,
    /// A tool invocation.
    Tool,
    /// A processing chain.
    Chain,
    /// A retrieval operation (e.g. RAG).
    Retriever,
    /// An evaluation step.
    Evaluator,
    /// A guardrail check.
    Guardrail,
}

/// The wire name of an observation type (lowercase).
pub open spec fn observation_type_name(t: ObservationType) -> Seq<char> {
    match t {
        ObservationType::Span => "span"@,
        ObservationType::Generation => "generation"@,
        ObservationType::Event => "event"@,
        ObservationType::Embedding => "embedding"@,
        ObservationType::Agent => "agent"@,
        ObservationType::Tool => "tool"@,
        ObservationType::Chain => "chain"@,
        ObservationType::Retriever => "retriever"@,
        ObservationType::Evaluator => "evaluator"@,
        ObservationType::Guardrail => "guardrail"@,
    }
}

/// The observation type whose wire name is `s`, if any.
pub open spec fn observation_type_named(s: Seq<char>) -> Option<ObservationType> {
    if s == "span"@ {
        Some(ObservationType::Span)
    } else if s == "generation"@ {
        Some(ObservationType::Generation)
    } else if s == "event"@ {
        Some(ObservationType::Event)
    } else if s == "embedding"@ {
        Some(ObservationType::Embedding)
    } else if s == "agent"@ {
        Some(ObservationType::Agent)
    } else if s == "tool"@ {
        Some(ObservationType::Tool)
    } else if s == "chain"@ {
        Some(ObservationType::Chain)
    } else if s == "retriever"@ {
        Some(ObservationType::Retriever)
    } else if s == "evaluator"@ {
        Some(ObservationType::Evaluator)
    } else if s == "guardrail"@ {
        Some(ObservationType::Guardrail)
    } else {
        None
    }
}

impl ObservationType {
    /// The wire name of the observation type.
    pub fn as_str(&self) -> (r: &'static str)
        ensures
            r@ == observation_type_name(*self),
    {
        match self {
            ObservationType::Span => "span",
            ObservationType::Generation => "generation",
            ObservationType::Event => "event",
            ObservationType::Embedding => "embedding",
            ObservationType::Agent => "agent",
            ObservationType::Tool => "tool",
            ObservationType::Chain => "chain",
            ObservationType::Retriever => "retriever",
            ObservationType::Evaluator => "evaluator",
            ObservationType::Guardrail => "guardrail",
        }
    }

    /// The observation type with the wire name `s`, if any.
    pub fn from_name(s: &str) -> (r: Option<ObservationType>)
        ensures
            r == observation_type_named(s@),
    {
        if str_eq(s, "span") {
            Some(ObservationType::Span)
        } else if str_eq(s, "generation") {
            Some(ObservationType::Generation)
        } else if str_eq(s, "event") {
            Some(ObservationType::Event)
        } else if str_eq(s, "embedding") {
            Some(ObservationType::Embedding)
        } else if str_eq(s, "agent") {
            Some(ObservationType::Agent)
        } else if str_eq(s, "tool") {
            Some(ObservationType::Tool)
        } else if str_eq(s, "chain") {
            Some(ObservationType::Chain)
        } else if str_eq(s, "retriever") {
            Some(ObservationType::Retriever)
        } else if str_eq(s, "evaluator") {
            Some(ObservationType::Evaluator)
        } else if str_eq(s, "guardrail") {
            Some(ObservationType::Guardrail)
        } else {
            None
        }
    }
}

/// Reading back the wire name of an observation type gives the same type.
pub proof fn lemma_observation_type_name_round_trip(t: ObservationType)
    ensures
        observation_type_named(observation_type_name(t)) == Some(t),
{
    reveal_strlit("span");
    reveal_strlit("generation");
    reveal_strlit("event");
    reveal_strlit("embedding");
    reveal_strlit("agent");
    reveal_strlit("tool");
    reveal_strlit("chain");
    reveal_strlit("retriever");
    reveal_strlit("evaluator");
    reveal_strlit("guardrail");
    assert("span"@.len() == 4 && "span"@[0] == 's' && "span"@[1] == 'p');
    assert("generation"@.len() == 10 && "generation"@[0] == 'g' && "generation"@[1] == 'e');
    assert("event"@.len() == 5 && "event"@[0] == 'e' && "event"@[1] == 'v');
    assert("embedding"@.len() == 9 && "embedding"@[0] == 'e' && "embedding"@[1] == 'm');
    assert("agent"@.len() == 5 && "agent"@[0] == 'a' && "agent"@[1] == 'g');
    assert("tool"@.len() == 4 && "tool"@[0] == 't' && "tool"@[1] == 'o');
    assert("chain"@.len() == 5 && "chain"@[0] == 'c' && "chain"@[1] == 'h');
    assert("retriever"@.len() == 9 && "retriever"@[0] == 'r' && "retriever"@[1] == 'e');
    assert("evaluator"@.len() == 9 && "evaluator"@[0] == 'e' && "evaluator"@[1] == 'v');
    assert("guardrail"@.len() == 9 && "guardrail"@[0] == 'g' && "guardrail"@[1] == 'u');
}

/// Severity level for spans.
#[derive(Debug, Clone, Copy, PartialEq, Eq, Structural)]
pub enum SpanLevel {
    /// Debug-level severity.
    Debug,
    /// Default severity.
    Default,
    /// Warning-level severity.
    Warning,
    /// Error-level severity.
    Error,
}

/// The wire name of a severity level (upper case).
pub open spec fn span_level_name(l: SpanLevel) -> Seq<char> {
    match l {
        SpanLevel::Debug => "DEBUG"@,
        SpanLevel::Default => "DEFAULT"@,
        SpanLevel::Warning => "WARNING"@,
        SpanLevel::Error => "ERROR"@,
    }
}

/// The severity level whose wire name is `s`, if any.
pub open spec fn span_level_named(s: Seq<char>) -> Option<SpanLevel> {
    if s == "DEBUG"@ {
        Some(SpanLevel::Debug)
    } else if s == "DEFAULT"@ {
        Some(SpanLevel::Default)
    } else if s == "WARNING"@ {
        Some(SpanLevel::Warning)
    } else if s == "ERROR"@ {
        Some(SpanLevel::Error)
    } else {
        None
    }
}

impl SpanLevel {
    /// The wire name of the level.
    pub fn as_str(&self) -> (r: &'static str)
        ensures
            r@ == span_level_name(*self),
    {
        match self {
            SpanLevel::Debug => "DEBUG",
            SpanLevel::Default => "DEFAULT",
            SpanLevel::Warning => "WARNING",
            SpanLevel::Error => "ERROR",
        }
    }

    /// The level with the wire name `s`, if any.
    pub fn from_name(s: &str) -> (r: Option<SpanLevel>)
        ensures
            r == span_level_named(s@),
    {
        if str_eq(s, "DEBUG") {
            Some(SpanLevel::Debug)
        } else if str_eq(s, "DEFAULT") {
            Some(SpanLevel::Default)
        } else if str_eq(s, "WARNING") {
            Some(SpanLevel::Warning)
        } else if str_eq(s, "ERROR") {
            Some(SpanLevel::Error)
        } else {
            None
        }
    }
}

/// Reading back the wire name of a level gives the same level.
pub proof fn lemma_span_level_name_round_trip(l: SpanLevel)
    ensures
        span_level_named(span_level_name(l)) == Some(l),
{
    reveal_strlit("DEBUG");
    reveal_strlit("DEFAULT");
    reveal_strlit("WARNING");
    reveal_strlit("ERROR");
    assert("DEBUG"@.len() == 5 && "DEBUG"@[0] == 'D' && "DEBUG"@[1] == 'E');
    assert("DEFAULT"@.len() == 7 && "DEFAULT"@[0] == 'D' && "DEFAULT"@[1] == 'E');
    assert("WARNING"@.len() == 7 && "WARNING"@[0] == 'W' && "WARNING"@[1] == 'A');
    assert("ERROR"@.len() == 5 && "ERROR"@[0] == 'E' && "ERROR"@[1] == 'R');
}

/// The type of prompt template.
#[derive(Debug, Clone, Copy, PartialEq, Eq, Structural)]
pub enum PromptType {
    /// A plain text prompt template.
    Text,
    /// A chat prompt template (list of messages).
    Chat,
}

/// The wire name of a prompt type (lowercase).
pub open spec fn prompt_type_name(t: PromptType) -> Seq<char> {
    match t {
        PromptType::Text => "text"@,
        PromptType::Chat => "chat"@,
    }
}

/// The prompt type whose wire name is `s`, if any.
pub open spec fn prompt_type_named(s: Seq<char>) -> Option<PromptType> {
    if s == "text"@ {
        Some(PromptType::Text)
    } else if s == "chat"@ {
        Some(PromptType::Chat)
    } else {
        None
    }
}

impl PromptType {
    /// The wire name of the prompt type.
    pub fn as_str(&self) -> (r: &'static str)
        ensures
            r@ == prompt_type_name(*self),
    {
        match self {
            PromptType::Text => "text",
            PromptType::Chat => "chat",
        }
    }

    /// The prompt type with the wire name `s`, if any.
    pub fn from_name(s: &str) -> (r: Option<PromptType>)
        ensures
            r == prompt_type_named(s@),
    {
        if str_eq(s, "text") {
            Some(PromptType::Text)
        } else if str_eq(s, "chat") {
            Some(PromptType::Chat)
        } else {
            None
        }
    }
}

/// Reading back the wire name of a prompt type gives the same type.
pub proof fn lemma_prompt_type_name_round_trip(t: PromptType)
    ensures
        prompt_type_named(prompt_type_name(t)) == Some(t),
{
    reveal_strlit("text");
    reveal_strlit("chat");
    assert("text"@.len() == 4 && "text"@[0] == 't' && "text"@[1] == 'e');
    assert("chat"@.len() == 4 && "chat"@[0] == 'c' && "chat"@[1] == 'h');
}

/// The data type of a score.
#[derive(Debug, Clone, Copy, PartialEq, Eq, Structural)]
pub enum ScoreDataType {
    /// A numeric score (e.g. 0.0–1.0).
    Numeric,
    /// A categorical score (e.g. "good", "bad").
    Categorical,
    /// A boolean score (pass/fail).
    Boolean,
}

/// The wire name of a score data type (upper case).
pub open spec fn score_data_type_name(t: ScoreDataType) -> Seq<char> {
    match t {
        ScoreDataType::Numeric => "NUMERIC"@,
        ScoreDataType::Categorical => "CATEGORICAL"@,
        ScoreDataType::Boolean => "BOOLEAN"@,
    }
}

/// The score data type whose wire name is `s`, if any.
pub open spec fn score_data_type_named(s: Seq<char>) -> Option<ScoreDataType> {
    if s == "NUMERIC"@ {
        Some(ScoreDataType::Numeric)
    } else if s == "CATEGORICAL"@ {
        Some(ScoreDataType::Categorical)
    } else if s == "BOOLEAN"@ {
        Some(ScoreDataType::Boolean)
    } else {
        None
    }
}

impl ScoreDataType {
    /// The wire name of the data type.
    pub fn as_str(&self) -> (r: &'static str)
        ensures
            r@ == score_data_type_name(*self),
    {
        match self {
            ScoreDataType::Numeric => "NUMERIC",
            ScoreDataType::Categorical => "CATEGORICAL",
            ScoreDataType::Boolean => "BOOLEAN",
        }
    }

    /// The data type with the wire name `s`, if any.
    pub fn from_name(s: &str) -> (r: Option<ScoreDataType>)
        ensures
            r == score_data_type_named(s@),
    {
        if str_eq(s, "NUMERIC") {
            Some(ScoreDataType::Numeric)
        } else if str_eq(s, "CATEGORICAL") {
            Some(ScoreDataType::Categorical)
        } else if str_eq(s, "BOOLEAN") {
            Some(ScoreDataType::Boolean)
        } else {
            None
        }
    }
}

/// Reading back the wire name of a score data type gives the same type.
pub proof fn lemma_score_data_type_name_round_trip(t: ScoreDataType)
    ensures
        score_data_type_named(score_data_type_name(t)) == Some(t),
{
    reveal_strlit("NUMERIC");
    reveal_strlit("CATEGORICAL");
    reveal_strlit("BOOLEAN");
    assert("NUMERIC"@.len() == 7 && "NUMERIC"@[0] == 'N' && "NUMERIC"@[1] == 'U');
    assert("CATEGORICAL"@.len() == 11 && "CATEGORICAL"@[0] == 'C' && "CATEGORICAL"@[1] == 'A');
    assert("BOOLEAN"@.len() == 7 && "BOOLEAN"@[0] == 'B' && "BOOLEAN"@[1] == 'O');
}

/// Token usage details for LLM generations.
#[derive(Debug, Clone, Copy, PartialEq, Eq, Structural)]
pub struct UsageDetails {
    /// Number of input tokens.
    pub input: Option<u64>,
    /// Number of output tokens.
    pub output: Option<u64>,
    /// Total token count.
    pub total: Option<u64>,
}

impl Default for UsageDetails {
    fn default() -> (r: UsageDetails)
        ensures
            r.input is None && r.output is None && r.total is None,
    {
        UsageDetails { input: None, output: None, total: None }
    }
}

impl UsageDetails {
    /// Usage with every count given: `input` prompt tokens, `output`
    /// completion tokens and `total` tokens, as token counters report them.
    pub fn from_counts(input: u32, output: u32, total: u32) -> (r: UsageDetails)
        ensures
            r.input == Some(input as u64),
            r.output == Some(output as u64),
            r.total == Some(total as u64),
    {
        UsageDetails { input: Some(input as u64), output: Some(output as u64), total: Some(total as u64) }
    }
}

/// A chat message in a chat prompt template.
#[derive(Debug, Clone)]
pub struct ChatMessage {
    /// The role of the message sender (e.g. "system", "user", "assistant").
    pub role: String,
    /// The message content.
    pub content: String,
}

/// Content type and raw bytes for media.
#[derive(Debug, Clone)]
pub struct MediaContent {
    /// MIME content type (e.g. "image/png").
    pub content_type: String,
    /// Raw bytes of the media content.
    pub data: Vec<u8>,
}

/// Reference token format used in Langfuse for inline media:
/// `@@@langfuseMedia:type=<content_type>|id=<media_id>|source=<source>@@@`.
#[derive(Debug, Clone)]
pub struct MediaReference {
    /// Unique media identifier.
    pub media_id: String,
    /// MIME content type.
    pub content_type: String,
    /// Source identifier (e.g. "base64_data_uri").
    pub source: String,
}

} // verus!
