//! The classifier's chat interface: role-tagged messages and the provider
//! that answers them.

use vstd::prelude::*;

verus! {

/// One turn of a conversation, tagged with the role that speaks.
#[derive(Debug, PartialEq, Eq)]
pub enum ChatMessage {
    System(String),
    Developer(String),
    User(String),
    Assistant(String),
    Tool(String),
}

impl ChatMessage {
    /// The text of the turn, whatever its role.
    pub open spec fn content(self) -> Seq<char> {
        match self {
            ChatMessage::System(s) => s@,
            ChatMessage::Developer(s) => s@,
            ChatMessage::User(s) => s@,
            ChatMessage::Assistant(s) => s@,
            ChatMessage::Tool(s) => s@,
        }
    }

    /// The role as it is written in a request.
    pub open spec fn role_name(self) -> Seq<char> {
        match self {
            ChatMessage::System(_) => "system"@,
            ChatMessage::Developer(_) => "developer"@,
            ChatMessage::User(_) => "user"@,
            ChatMessage::Assistant(_) => "assistant"@,
            ChatMessage::Tool(_) => "tool"@,
        }
    }

    pub fn text(&self) -> (s: &String)
        ensures
            s@ == self.content(),
    {
        match self {
            ChatMessage::System(s) => s,
            ChatMessage::Developer(s) => s,
            ChatMessage::User(s) => s,
            ChatMessage::Assistant(s) => s,
            ChatMessage::Tool(s) => s,
        }
    }

    pub fn role(&self) -> (s: &'static str)
        ensures
            s@ == self.role_name(),
    {
        match self {
            ChatMessage::System(_) => "system",
            ChatMessage::Developer(_) => "developer",
            ChatMessage::User(_) => "user",
            ChatMessage::Assistant(_) => "assistant",
            ChatMessage::Tool(_) => "tool",
        }
    }
}

/// Why a provider gave no answer.
#[derive(Debug, PartialEq, Eq)]
pub enum ProviderError {
    /// The request could not be sent or the server refused it.
    Transport(String),
    /// The answer held no choice to take the text from.
    NoChoice,
}

/// A text classifier reached through a chat-completion call.
pub trait Provider {
    /// The access token the provider was set up with.
    fn token(&self) -> String;

    /// Sends the conversation and returns the assistant's raw answer.
    fn chat(&self, messages: Vec<ChatMessage>) -> Result<String, ProviderError>;
}

/// The text of the first choice of an answer, if it has one.
pub fn first_choice(choices: &Vec<ChatMessage>) -> (r: Result<String, ProviderError>)
    ensures
        match r {
            Ok(text) => choices@.len() > 0 && text@ == choices@[0].content(),
            Err(e) => choices@.len() == 0 && e is NoChoice,
        },
{
    if choices.len() == 0 {
        Err(ProviderError::NoChoice)
    } else {
        Ok(choices[0].text().clone())
    }
}

} // verus!
