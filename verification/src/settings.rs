//! Generation settings: safety thresholds per harm category, the system
//! instruction and the sampling parameters.

use vstd::prelude::*;

verus! {

/// The harm categories that a threshold can be set for.
#[derive(Debug, Clone, Copy, PartialEq, Eq, Structural)]
pub enum HarmCategory {
    Harassment,
    HateSpeech,
    SexuallyExplicit,
    DangerousContent,
}

/// How much a category may be blocked. `Unspecified` leaves the choice to
/// the provider and is the default for every category.
#[derive(Debug, Clone, Copy, PartialEq, Eq, Structural)]
pub enum HarmBlockThreshold {
    Unspecified,
    BlockLowAndAbove,
    BlockMediumAndAbove,
    BlockOnlyHigh,
    BlockNone,
}

impl HarmCategory {
    /// The name by which the service knows this category.
    pub open spec fn wire_name(self) -> Seq<char> {
        match self {
            HarmCategory::Harassment => "HARM_CATEGORY_HARASSMENT"@,
            HarmCategory::HateSpeech => "HARM_CATEGORY_HATE_SPEECH"@,
            HarmCategory::SexuallyExplicit => "HARM_CATEGORY_SEXUALLY_EXPLICIT"@,
            HarmCategory::DangerousContent => "HARM_CATEGORY_DANGEROUS_CONTENT"@,
        }
    }

    /// The name by which the service knows this category.
    pub fn as_str(&self) -> (name: &'static str)
        ensures
            name@ == self.wire_name(),
    {
        match self {
            HarmCategory::Harassment => "HARM_CATEGORY_HARASSMENT",
            HarmCategory::HateSpeech => "HARM_CATEGORY_HATE_SPEECH",
            HarmCategory::SexuallyExplicit => "HARM_CATEGORY_SEXUALLY_EXPLICIT",
            HarmCategory::DangerousContent => "HARM_CATEGORY_DANGEROUS_CONTENT",
        }
    }
}

impl HarmBlockThreshold {
    /// The name by which the service knows this threshold.
    pub open spec fn wire_name(self) -> Seq<char> {
        match self {
            HarmBlockThreshold::Unspecified => "HARM_BLOCK_THRESHOLD_UNSPECIFIED"@,
            HarmBlockThreshold::BlockLowAndAbove => "BLOCK_LOW_AND_ABOVE"@,
            HarmBlockThreshold::BlockMediumAndAbove => "BLOCK_MEDIUM_AND_ABOVE"@,
            HarmBlockThreshold::BlockOnlyHigh => "BLOCK_ONLY_HIGH"@,
            HarmBlockThreshold::BlockNone => "BLOCK_NONE"@,
        }
    }

    /// The name by which the service knows this threshold.
    pub fn as_str(&self) -> (name: &'static str)
        ensures
            name@ == self.wire_name(),
    {
        match self {
            HarmBlockThreshold::Unspecified => "HARM_BLOCK_THRESHOLD_UNSPECIFIED",
            HarmBlockThreshold::BlockLowAndAbove => "BLOCK_LOW_AND_ABOVE",
            HarmBlockThreshold::BlockMediumAndAbove => "BLOCK_MEDIUM_AND_ABOVE",
            HarmBlockThreshold::BlockOnlyHigh => "BLOCK_ONLY_HIGH",
            HarmBlockThreshold::BlockNone => "BLOCK_NONE",
        }
    }
}

/// One threshold as a request carries it.
#[derive(Debug, Clone, Copy, PartialEq, Eq, Structural)]
pub struct SafetySetting {
    pub category: HarmCategory,
    pub threshold: HarmBlockThreshold,
}

/// The sampling parameters; each is optional. Temperature and top-p are held
/// in thousandths, so 1500 stands for 1.5.
#[derive(Debug, Clone, Copy, PartialEq, Eq, Structural)]
pub struct GenerationConfig {
    pub max_output_tokens: Option<u32>,
    pub temperature: Option<u32>,
    pub top_p: Option<u32>,
    pub top_k: Option<u32>,
}

/// The settings of one call.
#[derive(Debug, PartialEq, Eq)]
pub struct Settings {
    harassment: HarmBlockThreshold,
    hate_speech: HarmBlockThreshold,
    sexually_explicit: HarmBlockThreshold,
    dangerous_content: HarmBlockThreshold,
    system_instruction: Option<String>,
    generation: GenerationConfig,
}

/// What a `Settings` value holds.
pub struct SettingsView {
    pub harassment: HarmBlockThreshold,
    pub hate_speech: HarmBlockThreshold,
    pub sexually_explicit: HarmBlockThreshold,
    pub dangerous_content: HarmBlockThreshold,
    pub system_instruction: Option<Seq<char>>,
    pub generation: GenerationConfig,
}

impl SettingsView {
    /// Nothing set: every threshold unspecified, no instruction, no parameter.
    pub open spec fn unset() -> SettingsView {
        SettingsView {
            harassment: HarmBlockThreshold::Unspecified,
            hate_speech: HarmBlockThreshold::Unspecified,
            sexually_explicit: HarmBlockThreshold::Unspecified,
            dangerous_content: HarmBlockThreshold::Unspecified,
            system_instruction: None,
            generation: GenerationConfig {
                max_output_tokens: None,
                temperature: None,
                top_p: None,
                top_k: None,
            },
        }
    }

    /// The threshold of one category.
    pub open spec fn threshold(self, category: HarmCategory) -> HarmBlockThreshold {
        match category {
            HarmCategory::Harassment => self.harassment,
            HarmCategory::HateSpeech => self.hate_speech,
            HarmCategory::SexuallyExplicit => self.sexually_explicit,
            HarmCategory::DangerousContent => self.dangerous_content,
        }
    }

    /// The thresholds that a request carries: one entry for each category
    /// whose threshold is specified, in the categories' fixed order.
    pub open spec fn safety_settings(self) -> Seq<SafetySetting> {
        entry(HarmCategory::Harassment, self.harassment) + entry(
            HarmCategory::HateSpeech,
            self.hate_speech,
        ) + entry(HarmCategory::SexuallyExplicit, self.sexually_explicit) + entry(
            HarmCategory::DangerousContent,
            self.dangerous_content,
        )
    }
}

/// The request entry of one category: none while its threshold is unspecified.
pub open spec fn entry(category: HarmCategory, threshold: HarmBlockThreshold) -> Seq<
    SafetySetting,
> {
    if threshold == HarmBlockThreshold::Unspecified {
        Seq::empty()
    } else {
        seq![SafetySetting { category, threshold }]
    }
}

impl View for Settings {
    type V = SettingsView;

    closed spec fn view(&self) -> SettingsView {
        SettingsView {
            harassment: self.harassment,
            hate_speech: self.hate_speech,
            sexually_explicit: self.sexually_explicit,
            dangerous_content: self.dangerous_content,
            system_instruction: match self.system_instruction {
                Some(text) => Some(text@),
                None => None,
            },
            generation: self.generation,
        }
    }
}

fn push_entry(list: &mut Vec<SafetySetting>, category: HarmCategory, threshold: HarmBlockThreshold)
    ensures
        final(list)@ == old(list)@ + entry(category, threshold),
{
    if threshold != HarmBlockThreshold::Unspecified {
        list.push(SafetySetting { category, threshold });
    }
}

impl Settings {
    /// Settings with nothing set.
    pub fn new() -> (settings: Settings)
        ensures
            settings@ == SettingsView::unset(),
    {
        Settings {
            harassment: HarmBlockThreshold::Unspecified,
            hate_speech: HarmBlockThreshold::Unspecified,
            sexually_explicit: HarmBlockThreshold::Unspecified,
            dangerous_content: HarmBlockThreshold::Unspecified,
            system_instruction: None,
            generation: GenerationConfig {
                max_output_tokens: None,
                temperature: None,
                top_p: None,
                top_k: None,
            },
        }
    }

    /// Sets the threshold of one category.
    pub fn set_safety_setting(&mut self, category: HarmCategory, threshold: HarmBlockThreshold)
        ensures
            final(self)@.threshold(category) == threshold,
            forall|other: HarmCategory|
                other != category ==> final(self)@.threshold(other) == old(self)@.threshold(other),
            final(self)@.system_instruction == old(self)@.system_instruction,
            final(self)@.generation == old(self)@.generation,
    {
        match category {
            HarmCategory::Harassment => {
                self.harassment = threshold;
            },
            HarmCategory::HateSpeech => {
                self.hate_speech = threshold;
            },
            HarmCategory::SexuallyExplicit => {
                self.sexually_explicit = threshold;
            },
            HarmCategory::DangerousContent => {
                self.dangerous_content = threshold;
            },
        }
    }

    /// Sets every category to one threshold.
    pub fn set_all_safety_settings(&mut self, threshold: HarmBlockThreshold)
        ensures
            final(self)@ == (SettingsView {
                harassment: threshold,
                hate_speech: threshold,
                sexually_explicit: threshold,
                dangerous_content: threshold,
                ..old(self)@
            }),
    {
        self.harassment = threshold;
        self.hate_speech = threshold;
        self.sexually_explicit = threshold;
        self.dangerous_content = threshold;
    }

    pub fn set_system_instruction(&mut self, instruction: &str)
        ensures
            final(self)@ == (SettingsView {
                system_instruction: Some(instruction@),
                ..old(self)@
            }),
    {
        self.system_instruction = Some(instruction.to_owned());
    }

    pub fn set_max_output_tokens(&mut self, tokens: u32)
        ensures
            final(self)@ == (SettingsView {
                generation: GenerationConfig {
                    max_output_tokens: Some(tokens),
                    ..old(self)@.generation
                },
                ..old(self)@
            }),
    {
        self.generation.max_output_tokens = Some(tokens);
    }

    /// Sets the temperature, in thousandths.
    pub fn set_temperature(&mut self, thousandths: u32)
        ensures
            final(self)@ == (SettingsView {
                generation: GenerationConfig {
                    temperature: Some(thousandths),
                    ..old(self)@.generation
                },
                ..old(self)@
            }),
    {
        self.generation.temperature = Some(thousandths);
    }

    /// Sets top-p, in thousandths.
    pub fn set_top_p(&mut self, thousandths: u32)
        ensures
            final(self)@ == (SettingsView {
                generation: GenerationConfig { top_p: Some(thousandths), ..old(self)@.generation },
                ..old(self)@
            }),
    {
        self.generation.top_p = Some(thousandths);
    }

    pub fn set_top_k(&mut self, top_k: u32)
        ensures
            final(self)@ == (SettingsView {
                generation: GenerationConfig { top_k: Some(top_k), ..old(self)@.generation },
                ..old(self)@
            }),
    {
        self.generation.top_k = Some(top_k);
    }

    /// The thresholds as a request carries them.
    pub fn safety_settings(&self) -> (list: Vec<SafetySetting>)
        ensures
            list@ == self@.safety_settings(),
    {
        let mut list: Vec<SafetySetting> = Vec::new();
        push_entry(&mut list, HarmCategory::Harassment, self.harassment);
        push_entry(&mut list, HarmCategory::HateSpeech, self.hate_speech);
        push_entry(&mut list, HarmCategory::SexuallyExplicit, self.sexually_explicit);
        push_entry(&mut list, HarmCategory::DangerousContent, self.dangerous_content);
        list
    }

    pub fn system_instruction(&self) -> (instruction: Option<String>)
        ensures
            instruction.deep_view() == self@.system_instruction,
    {
        match &self.system_instruction {
            Some(text) => Some(text.clone()),
            None => None,
        }
    }

    pub fn generation(&self) -> (generation: GenerationConfig)
        ensures
            generation == self@.generation,
    {
        self.generation
    }
}

} // verus!
