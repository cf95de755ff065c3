//! The OpenAI-compatible request vocabulary: the parameter types a caller
//! may send, and the closed list of usable models with its default.
//!
//! The gateway relays most of these untouched; they are declared so callers
//! and the surrounding program share one vocabulary.

use vstd::prelude::*;
use vstd::string::StringExecFns;
use crate::json::JsonValue;

verus! {

/// The deprecated way to force or forbid a function call: a bare mode
/// word, or an object naming one function.
#[derive(Debug, Clone, PartialEq)]
pub enum FunctionCall {
    Mode(String),
    Named { name: Option<String> },
}

/// A function the model may generate JSON inputs for; the same schema
/// serves tools and the deprecated functions list.
#[derive(Debug, PartialEq)]
pub struct Function {
    pub description: Option<String>,
    pub name: Option<String>,
    pub parameters: Option<JsonValue>,
}

/// How much reasoning a model spends before answering.
#[derive(Debug, Clone, Copy, PartialEq, Eq, Structural)]
pub enum ReasoningEffort {
    Disabled,
    Standard,
    Low,
    Medium,
    High,
}

/// How reasoning tokens are presented in the response.
#[derive(Debug, Clone, Copy, PartialEq, Eq, Structural)]
pub enum ReasoningFormat {
    Hidden,
    Raw,
    Parsed,
}

/// Structured-output configuration: a schema with its name and strictness.
#[derive(Debug, PartialEq)]
pub struct JsonSchema {
    pub description: Option<String>,
    pub name: Option<String>,
    pub schema: Option<JsonValue>,
    pub strict: Option<bool>,
}

/// The output format the model must produce.
#[derive(Debug, PartialEq)]
pub enum ResponseFormat {
    Text,
    JsonSchema { json_schema: Option<JsonSchema> },
    JsonObject,
}

impl Default for ResponseFormat {
    /// Plain text unless the caller asks otherwise.
    fn default() -> (r: ResponseFormat)
        ensures
            r == ResponseFormat::Text,
    {
        ResponseFormat::Text
    }
}

/// Settings for the web-search tool.
#[derive(Debug, PartialEq)]
pub struct SearchSettings {
    pub country: Option<String>,
    pub exclude_domains: Option<Vec<JsonValue>>,
    pub include_domains: Option<Vec<JsonValue>>,
    pub include_images: Option<bool>,
}

/// The service tier a request runs under.
#[derive(Debug, Clone, Copy, PartialEq, Eq, Structural)]
pub enum ServiceTier {
    Auto,
    OnDemand,
    Flex,
    Performance,
}

impl Default for ServiceTier {
    /// The automatic tier.
    fn default() -> (r: ServiceTier)
        ensures
            r == ServiceTier::Auto,
    {
        ServiceTier::Auto
    }
}

/// Up to four sequences at which generation stops: one, or a list.
#[derive(Debug, Clone, PartialEq)]
pub enum StopSequence {
    One(String),
    Many(Vec<String>),
}

/// Options that only apply to a streamed response.
#[derive(Debug, Clone, PartialEq)]
pub struct StreamOptions {
    pub include_usage: Option<bool>,
}

/// The closed list of usable models, kept short on purpose: requests are
/// redirected onto one of these.
#[derive(Debug, Clone, Copy, PartialEq, Eq, Structural)]
pub enum CompletionModel {
    QwenQwen3_32b,
    OpenAiOss120b,
    OpenAiOss20b,
    MetaLlamaLlama4Maverick17b128eInstruct,
}

impl CompletionModel {
    /// Each model's wire identifier.
    pub open spec fn name_text(self) -> Seq<char> {
        match self {
            CompletionModel::QwenQwen3_32b => "qwen/qwen3-32b"@,
            CompletionModel::OpenAiOss120b => "openai/gpt-oss-120b"@,
            CompletionModel::OpenAiOss20b => "openai/gpt-oss-20b"@,
            CompletionModel::MetaLlamaLlama4Maverick17b128eInstruct => "meta-llama/llama-4-maverick-17b-128e-instruct"@,
        }
    }

    /// The wire identifier this model is requested under.
    pub fn as_name(&self) -> (r: &'static str)
        ensures
            r@ == self.name_text(),
    {
        match self {
            CompletionModel::QwenQwen3_32b => "qwen/qwen3-32b",
            CompletionModel::OpenAiOss120b => "openai/gpt-oss-120b",
            CompletionModel::OpenAiOss20b => "openai/gpt-oss-20b",
            CompletionModel::MetaLlamaLlama4Maverick17b128eInstruct => "meta-llama/llama-4-maverick-17b-128e-instruct",
        }
    }

    /// The model a wire identifier names, if any.
    pub fn from_name(s: &str) -> (r: Option<CompletionModel>)
        ensures
            r matches Some(m) ==> m.name_text() == s@,
            r is None ==> forall|m: CompletionModel| m.name_text() != s@,
    {
        let t = s.to_owned();
        if t == String::from_str("qwen/qwen3-32b") {
            Some(CompletionModel::QwenQwen3_32b)
        } else if t == String::from_str("openai/gpt-oss-120b") {
            Some(CompletionModel::OpenAiOss120b)
        } else if t == String::from_str("openai/gpt-oss-20b") {
            Some(CompletionModel::OpenAiOss20b)
        } else if t == String::from_str("meta-llama/llama-4-maverick-17b-128e-instruct") {
            Some(CompletionModel::MetaLlamaLlama4Maverick17b128eInstruct)
        } else {
            proof {
                assert forall|m: CompletionModel| m.name_text() != s@ by {
                    match m {
                        CompletionModel::QwenQwen3_32b => {},
                        CompletionModel::OpenAiOss120b => {},
                        CompletionModel::OpenAiOss20b => {},
                        CompletionModel::MetaLlamaLlama4Maverick17b128eInstruct => {},
                    }
                }
            }
            None
        }
    }
}

impl Default for CompletionModel {
    /// The model used when configuration names none.
    fn default() -> (r: CompletionModel)
        ensures
            r == CompletionModel::QwenQwen3_32b,
    {
        CompletionModel::QwenQwen3_32b
    }
}

} // verus!
