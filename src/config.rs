//! Static configuration of the assistant, loaded once at startup.
use vstd::prelude::*;
use crate::text::same_text;

verus! {

/// The whole configuration.
pub struct Config {
    pub vosk: VoskConfig,
    pub assistant: AssistantConfig,
    pub openai: OpenAiConfig,
    pub time_range: TimeRangeConfig,
    pub tool: Vec<ToolConfig>,
    pub tts: TtsConfig,
}

/// Speech-synthesis model location.
pub struct TtsConfig {
    pub model_path: String,
}

impl Default for TtsConfig {
    fn default() -> (r: Self)
        ensures
            r.model_path@ == "./ru_RU-irina-medium.onnx.json"@,
    {
        TtsConfig { model_path: TtsConfig::default_model_path() }
    }
}

impl TtsConfig {
    pub fn default_model_path() -> (r: String)
        ensures
            r@ == "./ru_RU-irina-medium.onnx.json"@,
    {
        String::from_str("./ru_RU-irina-medium.onnx.json")
    }
}

/// Speech-recognition model location.
pub struct VoskConfig {
    pub model_path: String,
}

impl Default for VoskConfig {
    fn default() -> (r: Self)
        ensures
            r.model_path@ == "./vosk-model-small-ru-0.22"@,
    {
        VoskConfig { model_path: VoskConfig::default_model_path() }
    }
}

impl VoskConfig {
    pub fn default_model_path() -> (r: String)
        ensures
            r@ == "./vosk-model-small-ru-0.22"@,
    {
        String::from_str("./vosk-model-small-ru-0.22")
    }
}

/// Wake phrase, stop words and the system prompt of every conversation.
pub struct AssistantConfig {
    pub wake_word: String,
    pub stop_words: Vec<String>,
    pub system_prompt: String,
}

impl AssistantConfig {
    pub fn default_stop_words() -> (r: Vec<String>)
        ensures
            r@.len() == 4,
            r@[0]@ == "стоп"@,
            r@[1]@ == "спасибо"@,
            r@[2]@ == "хватит"@,
            r@[3]@ == "отмена"@,
    {
        vec![
            String::from_str("стоп"),
            String::from_str("спасибо"),
            String::from_str("хватит"),
            String::from_str("отмена"),
        ]
    }

    pub fn default_system_prompt() -> (r: String)
        ensures
            r@ == "Ты голосовой ассистент. Отвечай кратко на русском языке."@,
    {
        String::from_str("Ты голосовой ассистент. Отвечай кратко на русском языке.")
    }
}

/// Chat-completion model identifier.
pub struct OpenAiConfig {
    pub model: String,
}

impl Default for OpenAiConfig {
    fn default() -> (r: Self)
        ensures
            r.model@ == "gpt-4o-mini"@,
    {
        OpenAiConfig { model: OpenAiConfig::default_model() }
    }
}

impl OpenAiConfig {
    pub fn default_model() -> (r: String)
        ensures
            r@ == "gpt-4o-mini"@,
    {
        String::from_str("gpt-4o-mini")
    }
}

/// The hours of the day, `start_hour <= h < end_hour`, in which the assistant listens.
pub struct TimeRangeConfig {
    pub start_hour: u32,
    pub end_hour: u32,
}

impl Default for TimeRangeConfig {
    fn default() -> (r: Self)
        ensures
            r.start_hour == 1,
            r.end_hour == 18,
    {
        TimeRangeConfig {
            start_hour: TimeRangeConfig::default_start(),
            end_hour: TimeRangeConfig::default_end(),
        }
    }
}

impl TimeRangeConfig {
    pub fn default_start() -> (r: u32)
        ensures
            r == 1,
    {
        1
    }

    pub fn default_end() -> (r: u32)
        ensures
            r == 18,
    {
        18
    }

    /// Whether the assistant listens at local hour `hour`.
    pub fn contains_hour(&self, hour: u32) -> (r: bool)
        ensures
            r == (self.start_hour <= hour && hour < self.end_hour),
    {
        self.start_hour <= hour && hour < self.end_hour
    }
}

/// One tool: a command template with `{{param}}` placeholders, and the schema
/// of its parameters.
pub struct ToolConfig {
    pub name: String,
    pub description: String,
    pub command: String,
    pub params: Vec<(String, ParamConfig)>,
    pub required_params: Vec<String>,
}

impl ToolConfig {
    /// The parameters form a map: no two share a name.
    pub open spec fn wf(&self) -> bool {
        forall|i: int, j: int|
            0 <= i < j < self.params@.len() ==> #[trigger] self.params@[i].0@ != #[trigger] self.params@[j].0@
    }

    /// Whether no two parameters share a name.
    pub fn params_distinct(&self) -> (r: bool)
        ensures
            r == self.wf(),
    {
        let n = self.params.len();
        let mut j: usize = 0;
        while j < n
            invariant
                n == self.params@.len(),
                j <= n,
                forall|a: int, b: int|
                    0 <= a < b < j ==> #[trigger] self.params@[a].0@ != #[trigger] self.params@[b].0@,
            decreases n - j,
        {
            let mut i: usize = 0;
            while i < j
                invariant
                    n == self.params@.len(),
                    i <= j < n,
                    forall|a: int, b: int|
                        0 <= a < b < j ==> #[trigger] self.params@[a].0@ != #[trigger] self.params@[b].0@,
                    forall|a: int| 0 <= a < i ==> #[trigger] self.params@[a].0@ != self.params@[j as int].0@,
                decreases j - i,
            {
                if same_text(self.params[i].0.as_str(), self.params[j].0.as_str()) {
                    return false;
                }
                i = i + 1;
            }
            j = j + 1;
        }
        true
    }
}

/// Declared type and description of one tool parameter.
pub struct ParamConfig {
    pub param_type: String,
    pub description: String,
}

} // verus!
