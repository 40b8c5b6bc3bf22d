//! The conversation history and its compilation into a request.

use vstd::prelude::*;

use crate::settings::{GenerationConfig, SafetySetting, Settings, SettingsView};
use crate::types::{Blob, ContentPart, FileData, PartView, Role, Turn, TurnView};

verus! {

/// The ordered history of a conversation. Turns are only ever appended.
#[derive(Debug, PartialEq, Eq)]
pub struct Context {
    turns: Vec<Turn>,
}

impl View for Context {
    type V = Seq<TurnView>;

    closed spec fn view(&self) -> Seq<TurnView> {
        self.turns.deep_view()
    }
}

/// A compiled request: the history and the settings in the shape that the
/// transport sends.
#[derive(Debug, PartialEq, Eq)]
pub struct Request {
    pub contents: Vec<Turn>,
    pub safety_settings: Vec<SafetySetting>,
    pub system_instruction: Option<String>,
    pub generation_config: GenerationConfig,
}

/// What a request holds.
pub struct RequestView {
    pub contents: Seq<TurnView>,
    pub safety_settings: Seq<SafetySetting>,
    pub system_instruction: Option<Seq<char>>,
    pub generation_config: GenerationConfig,
}

impl View for Request {
    type V = RequestView;

    open spec fn view(&self) -> RequestView {
        RequestView {
            contents: self.contents.deep_view(),
            safety_settings: self.safety_settings@,
            system_instruction: self.system_instruction.deep_view(),
            generation_config: self.generation_config,
        }
    }
}

/// The request that a history and the settings of a call compile to: the
/// turns as they stand, in order, and the settings projected beside them.
pub open spec fn compile(history: Seq<TurnView>, settings: SettingsView) -> RequestView {
    RequestView {
        contents: history,
        safety_settings: settings.safety_settings(),
        system_instruction: settings.system_instruction,
        generation_config: settings.generation,
    }
}

/// One append to a history, as the `push_*` operations make them.
pub enum Push {
    Text { role: Option<Role>, text: Seq<char> },
    File { role: Option<Role>, file: PartView },
    Blob { role: Option<Role>, blob: PartView },
    TextWithFile { role: Option<Role>, text: Seq<char>, file: PartView },
    TextWithBlob { role: Option<Role>, text: Seq<char>, blob: PartView },
}

impl Push {
    /// The turn that this append adds: the given role, `User` when none is
    /// given, and the parts in order, text first.
    pub open spec fn turn(self) -> TurnView {
        match self {
            Push::Text { role, text } => TurnView {
                role: Role::or_user(role),
                parts: seq![PartView::Text(text)],
            },
            Push::File { role, file } => TurnView { role: Role::or_user(role), parts: seq![file] },
            Push::Blob { role, blob } => TurnView { role: Role::or_user(role), parts: seq![blob] },
            Push::TextWithFile { role, text, file } => TurnView {
                role: Role::or_user(role),
                parts: seq![PartView::Text(text), file],
            },
            Push::TextWithBlob { role, text, blob } => TurnView {
                role: Role::or_user(role),
                parts: seq![PartView::Text(text), blob],
            },
        }
    }
}

/// The history that a run of appends leaves, starting from `start`.
pub open spec fn replay(start: Seq<TurnView>, pushes: Seq<Push>) -> Seq<TurnView>
    decreases pushes.len(),
{
    if pushes.len() == 0 {
        start
    } else {
        replay(start, pushes.drop_last()).push(pushes.last().turn())
    }
}

/// A run of appends adds one turn for each append, in the order of the
/// appends, and leaves what was there before in place.
pub proof fn lemma_replay_appends_in_order(start: Seq<TurnView>, pushes: Seq<Push>)
    ensures
        replay(start, pushes).len() == start.len() + pushes.len(),
        forall|i: int| 0 <= i < start.len() ==> replay(start, pushes)[i] == start[i],
        forall|i: int|
            0 <= i < pushes.len() ==> #[trigger] replay(start, pushes)[start.len() + i]
                == pushes[i].turn(),
    decreases pushes.len(),
{
    if pushes.len() > 0 {
        lemma_replay_appends_in_order(start, pushes.drop_last());
    }
}

/// The request compiled after any run of appends to an empty history holds
/// exactly one turn for each append, in the order of the appends, whatever
/// the settings.
pub proof fn lemma_compile_mirrors_history(pushes: Seq<Push>, settings: SettingsView)
    ensures
        compile(replay(Seq::empty(), pushes), settings).contents.len() == pushes.len(),
        forall|i: int|
            0 <= i < pushes.len() ==> #[trigger] compile(
                replay(Seq::empty(), pushes),
                settings,
            ).contents[i] == pushes[i].turn(),
{
    lemma_replay_appends_in_order(Seq::empty(), pushes);
    assert forall|i: int| 0 <= i < pushes.len() implies #[trigger] compile(
        replay(Seq::empty(), pushes),
        settings,
    ).contents[i] == pushes[i].turn() by {
        assert(replay(Seq::<TurnView>::empty(), pushes)[0 + i] == pushes[i].turn());
    }
}

/// Copies a list of turns.
pub fn clone_turns(turns: &Vec<Turn>) -> (copy: Vec<Turn>)
    ensures
        copy.deep_view() == turns.deep_view(),
{
    let mut copy: Vec<Turn> = Vec::new();
    let mut i: usize = 0;
    while i < turns.len()
        invariant
            i <= turns.len(),
            copy.len() == i,
            forall|k: int| 0 <= k < i ==> copy[k]@ == turns[k]@,
        decreases turns.len() - i,
    {
        copy.push(turns[i].clone());
        i += 1;
    }
    copy
}

impl Context {
    /// An empty history.
    pub fn new() -> (context: Context)
        ensures
            context@ == Seq::<TurnView>::empty(),
    {
        let context = Context { turns: Vec::new() };
        context
    }

    /// A history seeded with the given turns, in order.
    pub fn from_turns(turns: Vec<Turn>) -> (context: Context)
        ensures
            context@ == turns.deep_view(),
    {
        Context { turns }
    }

    /// The number of turns.
    pub fn len(&self) -> (count: usize)
        ensures
            count == self@.len(),
    {
        self.turns.len()
    }

    /// The turns, oldest first.
    pub fn turns(&self) -> (turns: &Vec<Turn>)
        ensures
            turns.deep_view() == self@,
    {
        &self.turns
    }

    fn push_turn(&mut self, turn: Turn)
        ensures
            final(self)@ == old(self)@.push(turn@),
    {
        self.turns.push(turn);
    }

    /// Appends a turn that holds one text part.
    pub fn push_text(&mut self, role: Option<Role>, text: String)
        ensures
            final(self)@ == old(self)@.push((Push::Text { role, text: text@ }).turn()),
    {
        self.push_turn(Turn::single(Role::or_default(role), ContentPart::Text(text)));
    }

    /// Appends a turn that holds one file reference.
    pub fn push_file_reference(&mut self, role: Option<Role>, file: FileData)
        ensures
            final(self)@ == old(self)@.push((Push::File { role, file: file@ }).turn()),
    {
        self.push_turn(Turn::single(Role::or_default(role), ContentPart::FileReference(file)));
    }

    /// Appends a turn that holds one inline blob.
    pub fn push_blob(&mut self, role: Option<Role>, blob: Blob)
        ensures
            final(self)@ == old(self)@.push((Push::Blob { role, blob: blob@ }).turn()),
    {
        self.push_turn(Turn::single(Role::or_default(role), ContentPart::InlineBlob(blob)));
    }

    /// Appends one turn that holds a text part and then a file reference.
    pub fn push_text_with_file(&mut self, role: Option<Role>, text: &str, file: FileData)
        ensures
            final(self)@ == old(self)@.push(
                (Push::TextWithFile { role, text: text@, file: file@ }).turn(),
            ),
    {
        self.push_turn(
            Turn::pair(
                Role::or_default(role),
                ContentPart::Text(text.to_owned()),
                ContentPart::FileReference(file),
            ),
        );
    }

    /// Appends one turn that holds a text part and then an inline blob.
    pub fn push_text_with_blob(&mut self, role: Option<Role>, text: &str, blob: Blob)
        ensures
            final(self)@ == old(self)@.push(
                (Push::TextWithBlob { role, text: text@, blob: blob@ }).turn(),
            ),
    {
        self.push_turn(
            Turn::pair(
                Role::or_default(role),
                ContentPart::Text(text.to_owned()),
                ContentPart::InlineBlob(blob),
            ),
        );
    }

    /// Compiles the history and the settings into a request. The history is
    /// read, never changed.
    pub fn build(&self, settings: &Settings) -> (request: Request)
        ensures
            request@ == compile(self@, settings@),
            request@.contents == self@,
    {
        Request {
            contents: clone_turns(&self.turns),
            safety_settings: settings.safety_settings(),
            system_instruction: settings.system_instruction(),
            generation_config: settings.generation(),
        }
    }
}

} // verus!
