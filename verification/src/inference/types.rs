//! Inference requests.

use crate::text::chars::same_text;
use vstd::prelude::*;

verus! {

/// What a task brings out.
#[derive(Debug, Clone, Copy, PartialEq, Eq, Structural)]
pub enum OutputModality {
    Text,
    Image,
    Video,
    Audio,
    Embedding,
}

/// A task: the name by which messages show it, and what it brings out.
#[derive(Debug, Clone)]
pub struct InferenceTask {
    pub name: String,
    pub modality: OutputModality,
}

/// What becomes of an explicit parameter that a runtime does not support.
#[derive(Debug, Clone, Copy, PartialEq, Eq, Structural)]
pub enum ParameterPolicy {
    /// The runtime is refused.
    Strict,
    /// The parameter is passed over.
    Lenient,
}

/// What a runtime makes of a parameter.
#[derive(Debug, Clone, Copy, PartialEq, Eq, Structural)]
pub enum ParameterSupportStatus {
    Native,
    ModelDependent,
    Ignored,
    Unsupported,
}

/// How well a workload fits the memory at hand.
#[derive(Debug, Clone, Copy, PartialEq, Eq, Structural)]
pub enum FitAssessment {
    Fits,
    Unknown,
    LikelyOom,
}

/// The estimate of a workload.
#[derive(Debug, Clone, Copy)]
pub struct WorkloadEstimate {
    pub fit: FitAssessment,
}

/// The value of a parameter.
#[derive(Debug, Clone)]
pub enum ParameterValue {
    Text(String),
    Bool(bool),
    Unsigned(u64),
    /// A value of another kind, such as a list.
    Other,
}

/// A request with every parameter resolved.
#[derive(Debug, Clone)]
pub struct EffectiveInferenceRequest {
    pub task: InferenceTask,
    /// The parameters by their paths. Where a path occurs more than once, its first entry counts.
    pub parameters: Vec<(String, ParameterValue)>,
    /// The paths of the parameters that the caller has set.
    pub explicit_parameters: Vec<String>,
    pub parameter_policy: ParameterPolicy,
}

/// The first value under a name in a list of entries.
pub open spec fn lookup<V>(entries: Seq<(String, V)>, name: Seq<char>) -> Option<V>
    decreases entries.len(),
{
    if entries.len() == 0 {
        None
    } else if entries[0].0@ == name {
        Some(entries[0].1)
    } else {
        lookup(entries.drop_first(), name)
    }
}

/// The first value under a name in a list of entries.
pub fn find_value<'a, V>(entries: &'a Vec<(String, V)>, name: &str) -> (found: Option<&'a V>)
    ensures
        match found {
            Some(value) => lookup(entries@, name@) == Some(*value),
            None => lookup(entries@, name@) is None,
        },
{
    let mut i: usize = 0;
    proof {
        assert(entries@.skip(0) =~= entries@);
    }
    while i < entries.len()
        invariant
            i <= entries.len(),
            lookup(entries@, name@) == lookup(entries@.skip(i as int), name@),
        decreases entries.len() - i,
    {
        proof {
            assert(entries@.skip(i as int).drop_first() =~= entries@.skip(i + 1));
        }
        if same_text(entries[i].0.as_str(), name) {
            return Some(&entries[i].1);
        }
        i = i + 1;
    }
    None
}

impl EffectiveInferenceRequest {
    /// The text under a path, where the parameter is a text.
    pub open spec fn text_at(self, path: Seq<char>) -> Option<Seq<char>> {
        match lookup(self.parameters@, path) {
            Some(ParameterValue::Text(text)) => Some(text@),
            _ => None,
        }
    }

    /// The flag under a path, where the parameter is a flag.
    pub open spec fn bool_at(self, path: Seq<char>) -> Option<bool> {
        match lookup(self.parameters@, path) {
            Some(ParameterValue::Bool(flag)) => Some(flag),
            _ => None,
        }
    }

    /// The number under a path, where the parameter is an unsigned number.
    pub open spec fn unsigned_at(self, path: Seq<char>) -> Option<u64> {
        match lookup(self.parameters@, path) {
            Some(ParameterValue::Unsigned(number)) => Some(number),
            _ => None,
        }
    }

    /// The text under a path, where the parameter is a text.
    pub fn string_parameter(&self, path: &str) -> (text: Option<&str>)
        ensures
            match text {
                Some(text) => self.text_at(path@) == Some(text@),
                None => self.text_at(path@) is None,
            },
    {
        match find_value(&self.parameters, path) {
            Some(ParameterValue::Text(text)) => Some(text.as_str()),
            _ => None,
        }
    }

    /// The flag under a path, where the parameter is a flag.
    pub fn bool_parameter(&self, path: &str) -> (flag: Option<bool>)
        ensures
            flag == self.bool_at(path@),
    {
        match find_value(&self.parameters, path) {
            Some(ParameterValue::Bool(flag)) => Some(*flag),
            _ => None,
        }
    }

    /// The number under a path, where the parameter is an unsigned number.
    pub fn u64_parameter(&self, path: &str) -> (number: Option<u64>)
        ensures
            number == self.unsigned_at(path@),
    {
        match find_value(&self.parameters, path) {
            Some(ParameterValue::Unsigned(number)) => Some(*number),
            _ => None,
        }
    }
}

} // verus!
