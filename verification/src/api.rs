//! Endpoints of the generative-content service and the models it offers.

use vstd::prelude::*;

use crate::text::text_eq;

verus! {

/// Base URL of the single-response endpoint; the model's wire name follows it.
pub const GENERATE_CONTENT: &'static str = "https://generativelanguage.googleapis.com/v1beta/models/";

/// Base URL of the streaming endpoint; the model's wire name follows it.
pub const STREAM_GENERATE_CONTENT: &'static str = "https://generativelanguage.googleapis.com/v1beta/models/";

/// The models that a request can be addressed to.
#[derive(Debug, Clone, Copy, PartialEq, Eq, Structural)]
pub enum Models {
    /// Experimental Gemini 1.5 Pro (0827).
    Gemini15ProExp0827,
    /// Experimental Gemini 1.5 Flash (0827).
    Gemini15FlashExp0827,
    /// Experimental Gemini 1.5 Flash 8B (0827).
    Gemini15Flash8bExp0827,
    /// Gemini 1.5 Pro, the default.
    Gemini15Pro,
    /// Gemini 1.5 Flash.
    Gemini15Flash,
    /// Gemini 1.0 Pro.
    Gemini10Pro,
    /// Gemma 2 2B IT.
    Gemma2_2bIt,
    /// Gemma 2 9B IT.
    Gemma2_9bIt,
    /// Gemma 2 27B IT.
    Gemma2_27bIt,
}

impl Models {
    /// The name by which the service knows this model.
    pub open spec fn wire_name(self) -> Seq<char> {
        match self {
            Models::Gemini15ProExp0827 => "gemini-1.5-pro-exp-0827"@,
            Models::Gemini15FlashExp0827 => "gemini-1.5-flash-exp-0827"@,
            Models::Gemini15Flash8bExp0827 => "gemini-1.5-flash-8b-exp-0827"@,
            Models::Gemini15Pro => "gemini-1.5-pro"@,
            Models::Gemini15Flash => "gemini-1.5-flash"@,
            Models::Gemini10Pro => "gemini-1.0-pro"@,
            Models::Gemma2_2bIt => "gemma-2-2b-it"@,
            Models::Gemma2_9bIt => "gemma-2-9b-it"@,
            Models::Gemma2_27bIt => "gemma-2-27b-it"@,
        }
    }

    /// The wire name as a string slice.
    pub fn as_str(&self) -> (name: &'static str)
        ensures
            name@ == self.wire_name(),
    {
        match self {
            Models::Gemini15ProExp0827 => "gemini-1.5-pro-exp-0827",
            Models::Gemini15FlashExp0827 => "gemini-1.5-flash-exp-0827",
            Models::Gemini15Flash8bExp0827 => "gemini-1.5-flash-8b-exp-0827",
            Models::Gemini15Pro => "gemini-1.5-pro",
            Models::Gemini15Flash => "gemini-1.5-flash",
            Models::Gemini10Pro => "gemini-1.0-pro",
            Models::Gemma2_2bIt => "gemma-2-2b-it",
            Models::Gemma2_9bIt => "gemma-2-9b-it",
            Models::Gemma2_27bIt => "gemma-2-27b-it",
        }
    }

    /// The wire name, without quotes, as it stands in a request URL.
    pub fn to_string(&self) -> (name: String)
        ensures
            name@ == self.wire_name(),
    {
        self.as_str().to_owned()
    }

    /// The model of a wire name, if the name is one of the fixed nine.
    pub open spec fn named(name: Seq<char>) -> Option<Models> {
        if name == Models::Gemini15ProExp0827.wire_name() {
            Some(Models::Gemini15ProExp0827)
        } else if name == Models::Gemini15FlashExp0827.wire_name() {
            Some(Models::Gemini15FlashExp0827)
        } else if name == Models::Gemini15Flash8bExp0827.wire_name() {
            Some(Models::Gemini15Flash8bExp0827)
        } else if name == Models::Gemini15Pro.wire_name() {
            Some(Models::Gemini15Pro)
        } else if name == Models::Gemini15Flash.wire_name() {
            Some(Models::Gemini15Flash)
        } else if name == Models::Gemini10Pro.wire_name() {
            Some(Models::Gemini10Pro)
        } else if name == Models::Gemma2_2bIt.wire_name() {
            Some(Models::Gemma2_2bIt)
        } else if name == Models::Gemma2_9bIt.wire_name() {
            Some(Models::Gemma2_9bIt)
        } else if name == Models::Gemma2_27bIt.wire_name() {
            Some(Models::Gemma2_27bIt)
        } else {
            None
        }
    }

    /// Reads a wire name: the model that bears it, `None` for any other text.
    pub fn from_name(name: &str) -> (model: Option<Models>)
        ensures
            model == Models::named(name@),
    {
        if text_eq(name, Models::Gemini15ProExp0827.as_str()) {
            Some(Models::Gemini15ProExp0827)
        } else if text_eq(name, Models::Gemini15FlashExp0827.as_str()) {
            Some(Models::Gemini15FlashExp0827)
        } else if text_eq(name, Models::Gemini15Flash8bExp0827.as_str()) {
            Some(Models::Gemini15Flash8bExp0827)
        } else if text_eq(name, Models::Gemini15Pro.as_str()) {
            Some(Models::Gemini15Pro)
        } else if text_eq(name, Models::Gemini15Flash.as_str()) {
            Some(Models::Gemini15Flash)
        } else if text_eq(name, Models::Gemini10Pro.as_str()) {
            Some(Models::Gemini10Pro)
        } else if text_eq(name, Models::Gemma2_2bIt.as_str()) {
            Some(Models::Gemma2_2bIt)
        } else if text_eq(name, Models::Gemma2_9bIt.as_str()) {
            Some(Models::Gemma2_9bIt)
        } else if text_eq(name, Models::Gemma2_27bIt.as_str()) {
            Some(Models::Gemma2_27bIt)
        } else {
            None
        }
    }

    /// No two models share a wire name.
    pub proof fn lemma_wire_names_distinct(a: Models, b: Models)
        requires
            a != b,
        ensures
            a.wire_name() != b.wire_name(),
    {
        reveal_strlit("gemini-1.5-pro-exp-0827");
        reveal_strlit("gemini-1.5-flash-exp-0827");
        reveal_strlit("gemini-1.5-flash-8b-exp-0827");
        reveal_strlit("gemini-1.5-pro");
        reveal_strlit("gemini-1.5-flash");
        reveal_strlit("gemini-1.0-pro");
        reveal_strlit("gemma-2-2b-it");
        reveal_strlit("gemma-2-9b-it");
        reveal_strlit("gemma-2-27b-it");
        let x = a.wire_name();
        let y = b.wire_name();
        if x.len() == y.len() {
            assert(x[3] != y[3] || x[8] != y[8] || x[9] != y[9]);
        }
    }

    /// Reading a model's wire name back gives that model and no other.
    pub proof fn lemma_named_inverts_wire_name(model: Models)
        ensures
            Models::named(model.wire_name()) == Some(model),
    {
        if model != Models::Gemini15ProExp0827 {
            Self::lemma_wire_names_distinct(model, Models::Gemini15ProExp0827);
        }
        if model != Models::Gemini15FlashExp0827 {
            Self::lemma_wire_names_distinct(model, Models::Gemini15FlashExp0827);
        }
        if model != Models::Gemini15Flash8bExp0827 {
            Self::lemma_wire_names_distinct(model, Models::Gemini15Flash8bExp0827);
        }
        if model != Models::Gemini15Pro {
            Self::lemma_wire_names_distinct(model, Models::Gemini15Pro);
        }
        if model != Models::Gemini15Flash {
            Self::lemma_wire_names_distinct(model, Models::Gemini15Flash);
        }
        if model != Models::Gemini10Pro {
            Self::lemma_wire_names_distinct(model, Models::Gemini10Pro);
        }
        if model != Models::Gemma2_2bIt {
            Self::lemma_wire_names_distinct(model, Models::Gemma2_2bIt);
        }
        if model != Models::Gemma2_9bIt {
            Self::lemma_wire_names_distinct(model, Models::Gemma2_9bIt);
        }
        if model != Models::Gemma2_27bIt {
            Self::lemma_wire_names_distinct(model, Models::Gemma2_27bIt);
        }
    }
}

impl Default for Models {
    fn default() -> (model: Models)
        ensures
            model == Models::Gemini15Pro,
    {
        Models::Gemini15Pro
    }
}

} // verus!
