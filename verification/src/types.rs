//! The parts of a conversation: roles, content parts and turns. The types
//! of the history, the settings and the responses are at hand here too.

use vstd::prelude::*;
use vstd::slice::slice_to_vec;

pub use crate::context::{Context, Request};
pub use crate::response::{
    Candidate, Content, GenerateContentResponse, PromptFeedback, SafetyRating,
};
pub use crate::settings::{
    GenerationConfig, HarmBlockThreshold, HarmCategory, SafetySetting, Settings,
};

verus! {

/// Whose voice a turn carries.
#[derive(Debug, Clone, Copy, PartialEq, Eq, Structural)]
pub enum Role {
    User,
    Model,
}

impl Default for Role {
    fn default() -> (role: Role)
        ensures
            role == Role::User,
    {
        Role::User
    }
}

impl Role {
    /// The name by which the service knows this role.
    pub open spec fn wire_name(self) -> Seq<char> {
        match self {
            Role::User => "user"@,
            Role::Model => "model"@,
        }
    }

    /// The name by which the service knows this role.
    pub fn as_str(&self) -> (name: &'static str)
        ensures
            name@ == self.wire_name(),
    {
        match self {
            Role::User => "user",
            Role::Model => "model",
        }
    }

    /// The role that a turn gets: the one given, `User` when none is.
    pub open spec fn or_user(role: Option<Role>) -> Role {
        match role {
            Some(given) => given,
            None => Role::User,
        }
    }

    /// The role that a turn gets: the one given, `User` when none is.
    pub fn or_default(role: Option<Role>) -> (chosen: Role)
        ensures
            chosen == Role::or_user(role),
    {
        match role {
            Some(given) => given,
            None => Role::User,
        }
    }
}

/// A handle to content that the file store already holds.
#[derive(Debug, PartialEq, Eq)]
pub struct FileData {
    pub mime_type: String,
    pub file_uri: String,
}

/// Binary content sent inline with a request.
#[derive(Debug, PartialEq, Eq)]
pub struct Blob {
    pub mime_type: String,
    pub data: Vec<u8>,
}

/// One piece of a turn.
#[derive(Debug, PartialEq, Eq)]
pub enum ContentPart {
    Text(String),
    FileReference(FileData),
    InlineBlob(Blob),
}

/// What a content part holds.
pub enum PartView {
    Text(Seq<char>),
    FileReference { mime_type: Seq<char>, file_uri: Seq<char> },
    InlineBlob { mime_type: Seq<char>, data: Seq<u8> },
}

impl View for FileData {
    type V = PartView;

    open spec fn view(&self) -> PartView {
        PartView::FileReference { mime_type: self.mime_type@, file_uri: self.file_uri@ }
    }
}

impl View for Blob {
    type V = PartView;

    open spec fn view(&self) -> PartView {
        PartView::InlineBlob { mime_type: self.mime_type@, data: self.data@ }
    }
}

impl View for ContentPart {
    type V = PartView;

    open spec fn view(&self) -> PartView {
        match self {
            ContentPart::Text(text) => PartView::Text(text@),
            ContentPart::FileReference(file) => file@,
            ContentPart::InlineBlob(blob) => blob@,
        }
    }
}

impl DeepView for ContentPart {
    type V = PartView;

    open spec fn deep_view(&self) -> PartView {
        self@
    }
}

impl FileData {
    pub fn new(mime_type: &str, file_uri: &str) -> (file: FileData)
        ensures
            file@ == (PartView::FileReference { mime_type: mime_type@, file_uri: file_uri@ }),
    {
        FileData { mime_type: mime_type.to_owned(), file_uri: file_uri.to_owned() }
    }
}

impl Clone for FileData {
    fn clone(&self) -> (copy: FileData)
        ensures
            copy@ == self@,
    {
        FileData { mime_type: self.mime_type.clone(), file_uri: self.file_uri.clone() }
    }
}

impl Blob {
    pub fn new(mime_type: &str, data: &[u8]) -> (blob: Blob)
        ensures
            blob@ == (PartView::InlineBlob { mime_type: mime_type@, data: data@ }),
    {
        Blob { mime_type: mime_type.to_owned(), data: slice_to_vec(data) }
    }
}

impl Clone for Blob {
    fn clone(&self) -> (copy: Blob)
        ensures
            copy@ == self@,
    {
        Blob { mime_type: self.mime_type.clone(), data: slice_to_vec(self.data.as_slice()) }
    }
}

impl Clone for ContentPart {
    fn clone(&self) -> (copy: ContentPart)
        ensures
            copy@ == self@,
    {
        match self {
            ContentPart::Text(text) => ContentPart::Text(text.clone()),
            ContentPart::FileReference(file) => ContentPart::FileReference(file.clone()),
            ContentPart::InlineBlob(blob) => ContentPart::InlineBlob(blob.clone()),
        }
    }
}

/// Copies a list of parts.
pub fn clone_parts(parts: &Vec<ContentPart>) -> (copy: Vec<ContentPart>)
    ensures
        copy.deep_view() == parts.deep_view(),
{
    let mut copy: Vec<ContentPart> = Vec::new();
    let mut i: usize = 0;
    while i < parts.len()
        invariant
            i <= parts.len(),
            copy.len() == i,
            forall|k: int| 0 <= k < i ==> copy[k]@ == parts[k]@,
        decreases parts.len() - i,
    {
        copy.push(parts[i].clone());
        i += 1;
    }
    copy
}

/// One unit of the conversation: a role and at least one part.
#[derive(Debug, PartialEq, Eq)]
pub struct Turn {
    role: Role,
    parts: Vec<ContentPart>,
}

/// What a turn holds.
pub struct TurnView {
    pub role: Role,
    pub parts: Seq<PartView>,
}

impl View for Turn {
    type V = TurnView;

    closed spec fn view(&self) -> TurnView {
        TurnView { role: self.role, parts: self.parts.deep_view() }
    }
}

impl DeepView for Turn {
    type V = TurnView;

    open spec fn deep_view(&self) -> TurnView {
        self@
    }
}

impl Turn {
    #[verifier::type_invariant]
    spec fn has_parts(self) -> bool {
        self.parts.len() > 0
    }

    /// A turn of one part.
    pub fn single(role: Role, part: ContentPart) -> (turn: Turn)
        ensures
            turn@ == (TurnView { role, parts: seq![part@] }),
    {
        let mut parts: Vec<ContentPart> = Vec::new();
        parts.push(part);
        assert(parts.deep_view() =~= seq![part@]);
        Turn { role, parts }
    }

    /// A turn of two parts, in the order given.
    pub fn pair(role: Role, first: ContentPart, second: ContentPart) -> (turn: Turn)
        ensures
            turn@ == (TurnView { role, parts: seq![first@, second@] }),
    {
        let mut parts: Vec<ContentPart> = Vec::new();
        parts.push(first);
        parts.push(second);
        assert(parts.deep_view() =~= seq![first@, second@]);
        Turn { role, parts }
    }

    /// A turn of the given parts, in order; `None` where there is no part.
    pub fn new(role: Role, parts: Vec<ContentPart>) -> (turn: Option<Turn>)
        ensures
            match turn {
                Some(made) => parts.len() > 0 && made@ == (TurnView {
                    role,
                    parts: parts.deep_view(),
                }),
                None => parts.len() == 0,
            },
    {
        if parts.len() == 0 {
            None
        } else {
            Some(Turn { role, parts })
        }
    }

    pub fn role(&self) -> (role: Role)
        ensures
            role == self@.role,
    {
        self.role
    }

    /// The parts, in order; there is always at least one.
    pub fn parts(&self) -> (parts: &Vec<ContentPart>)
        ensures
            parts.deep_view() == self@.parts,
            parts.len() > 0,
    {
        proof {
            use_type_invariant(self);
        }
        &self.parts
    }
}

impl Clone for Turn {
    fn clone(&self) -> (copy: Turn)
        ensures
            copy@ == self@,
    {
        proof {
            use_type_invariant(self);
        }
        let parts = clone_parts(&self.parts);
        assert(self.parts.len() == self.parts.deep_view().len());
        Turn { role: self.role, parts }
    }
}

} // verus!
