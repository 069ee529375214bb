//! What a chat request asks for, and what is streamed back to it.

use crate::text::same_text;
use vstd::prelude::*;
use vstd::string::StringExecFns;

verus! {

/// A chat request: a prompt, the chat so far, the chain to act on, and an
/// optional preamble for the agent.
#[derive(Debug)]
pub struct ChatRequest {
    pub prompt: String,
    pub chat_history: Vec<ChatMessage>,
    pub chain: Option<String>,
    pub preamble: Option<String>,
}

/// One item of the stream that answers a chat request.
#[derive(Debug)]
pub enum StreamResponse {
    Message(String),
    ToolCall { name: String, result: String },
    Error(String),
}

/// Why the server could not act for a user.
#[derive(Debug, Clone, Copy, PartialEq, Eq, Structural)]
pub enum ServerError {
    WalletError,
    PrivyError,
    ChainNotSupported,
}

/// One item of what the reasoning loop produces.
#[derive(Debug)]
pub enum LoopResponse {
    Message(String),
    ToolCall { name: String, result: String },
}

/// The chains that an agent can be made for.
#[derive(Debug, Clone, Copy, PartialEq, Eq, Structural)]
pub enum Chain {
    Solana,
    Evm,
    Omni,
}

/// Who wrote a chat message.
#[derive(Debug, Clone, Copy, PartialEq, Eq, Structural)]
pub enum ChatRole {
    User,
    Assistant,
}

/// A message of the chat history.
#[derive(Debug)]
pub struct ChatMessage {
    pub role: ChatRole,
    pub text: String,
}

/// The content of a message as it was sent: a text, or anything else.
#[derive(Debug)]
pub enum RawContent {
    Text(String),
    Other,
}

/// A message of the chat history as it was sent.
#[derive(Debug)]
pub struct RawMessage {
    pub role: String,
    pub content: RawContent,
}

/// Why a message of the chat history was refused.
#[derive(Debug, Clone, Copy, PartialEq, Eq, Structural)]
pub enum MessageError {
    InvalidUserContent,
    InvalidAssistantContent,
    InvalidRole,
}

/// The name under which each chain is asked for.
pub open spec fn chain_named(name: Seq<char>) -> Option<Chain> {
    if name == "solana"@ {
        Some(Chain::Solana)
    } else if name == "evm"@ {
        Some(Chain::Evm)
    } else if name == "omni"@ {
        Some(Chain::Omni)
    } else {
        None
    }
}

/// The text of the error for a chain that is not supported.
pub open spec fn unsupported_chain_text(name: Seq<char>) -> Seq<char> {
    "Unsupported chain: "@ + name
}

/// The view of a chain selection: the chain, or the text of the error.
pub open spec fn selection_view(r: Result<Chain, StreamResponse>) -> Result<Chain, Seq<char>> {
    match r {
        Ok(c) => Ok(c),
        Err(StreamResponse::Error(text)) => Err(text@),
        Err(_) => Err(Seq::empty()),
    }
}

/// The chain that a request selects, or the text of the error that answers
/// it.
pub open spec fn selected_chain(chain: Option<Seq<char>>) -> Result<Chain, Seq<char>> {
    match chain {
        Some(name) => match chain_named(name) {
            Some(c) => Ok(c),
            None => Err(unsupported_chain_text(name)),
        },
        None => Err("Chain parameter is required"@),
    }
}

/// The view of an optional text.
pub open spec fn name_view(name: Option<&str>) -> Option<Seq<char>> {
    match name {
        Some(text) => Some(text@),
        None => None,
    }
}

/// The message that a sent message stands for.
pub open spec fn message_of(raw: RawMessage) -> Result<(ChatRole, Seq<char>), MessageError> {
    if raw.role@ == "user"@ {
        match raw.content {
            RawContent::Text(text) => Ok((ChatRole::User, text@)),
            RawContent::Other => Err(MessageError::InvalidUserContent),
        }
    } else if raw.role@ == "assistant"@ {
        match raw.content {
            RawContent::Text(text) => Ok((ChatRole::Assistant, text@)),
            RawContent::Other => Err(MessageError::InvalidAssistantContent),
        }
    } else {
        Err(MessageError::InvalidRole)
    }
}

/// The messages that a sent chat history stands for, in order, or the error
/// of the first message that stands for none.
pub open spec fn messages_of(raw: Seq<RawMessage>) -> Result<
    Seq<(ChatRole, Seq<char>)>,
    MessageError,
>
    decreases raw.len(),
{
    if raw.len() == 0 {
        Ok(Seq::empty())
    } else {
        match messages_of(raw.drop_last()) {
            Ok(earlier) => match message_of(raw.last()) {
                Ok(m) => Ok(earlier.push(m)),
                Err(e) => Err(e),
            },
            Err(e) => Err(e),
        }
    }
}

/// The roles and texts of a list of messages.
pub open spec fn message_views(messages: Seq<ChatMessage>) -> Seq<(ChatRole, Seq<char>)> {
    messages.map_values(|m: ChatMessage| (m.role, m.text@))
}

/// The view of a converted chat history.
pub open spec fn history_view(r: Result<Vec<ChatMessage>, MessageError>) -> Result<
    Seq<(ChatRole, Seq<char>)>,
    MessageError,
> {
    match r {
        Ok(messages) => Ok(message_views(messages@)),
        Err(e) => Err(e),
    }
}

impl MessageError {
    /// The text of the error.
    pub open spec fn text(self) -> Seq<char> {
        match self {
            MessageError::InvalidUserContent => "Invalid user content format"@,
            MessageError::InvalidAssistantContent => "Invalid assistant content format"@,
            MessageError::InvalidRole => "Invalid role"@,
        }
    }

    /// The text of the error.
    pub fn message(&self) -> (s: String)
        ensures
            s@ == self.text(),
    {
        match self {
            MessageError::InvalidUserContent => String::from_str("Invalid user content format"),
            MessageError::InvalidAssistantContent => String::from_str(
                "Invalid assistant content format",
            ),
            MessageError::InvalidRole => String::from_str("Invalid role"),
        }
    }
}

/// The chain that a request selects. A request that names no chain, or one
/// that is not supported, is answered with an error.
pub fn select_chain(chain: Option<&str>) -> (r: Result<Chain, StreamResponse>)
    ensures
        selection_view(r) == selected_chain(name_view(chain)),
        r matches Err(e) ==> e is Error,
{
    match chain {
        Some(name) => {
            if same_text(name, "solana") {
                Ok(Chain::Solana)
            } else if same_text(name, "evm") {
                Ok(Chain::Evm)
            } else if same_text(name, "omni") {
                Ok(Chain::Omni)
            } else {
                Err(StreamResponse::Error(String::from_str("Unsupported chain: ").concat(name)))
            }
        },
        None => Err(StreamResponse::Error(String::from_str("Chain parameter is required"))),
    }
}

impl ChatRequest {
    /// The name of the chain that the request asks for, if it names one.
    pub open spec fn chain_name(self) -> Option<Seq<char>> {
        match self.chain {
            Some(name) => Some(name@),
            None => None,
        }
    }

    /// The chain that the request selects, or the error that answers it.
    pub fn selected_chain(&self) -> (r: Result<Chain, StreamResponse>)
        ensures
            selection_view(r) == selected_chain(self.chain_name()),
            r matches Err(e) ==> e is Error,
    {
        match &self.chain {
            Some(name) => select_chain(Some(name.as_str())),
            None => select_chain(None),
        }
    }
}

/// Hands an item of the reasoning loop on to the stream, as it is.
pub fn stream_response(response: LoopResponse) -> (r: StreamResponse)
    ensures
        match response {
            LoopResponse::Message(text) => r == StreamResponse::Message(text),
            LoopResponse::ToolCall { name, result } => r == (StreamResponse::ToolCall {
                name,
                result,
            }),
        },
{
    match response {
        LoopResponse::Message(text) => StreamResponse::Message(text),
        LoopResponse::ToolCall { name, result } => StreamResponse::ToolCall { name, result },
    }
}

/// Converts a sent chat history. Each message must be the user's or the
/// assistant's and hold a text.
pub fn deserialize_messages(raw: Vec<RawMessage>) -> (r: Result<Vec<ChatMessage>, MessageError>)
    ensures
        history_view(r) == messages_of(raw@),
{
    let mut messages: Vec<ChatMessage> = Vec::new();
    let ghost all = raw@;
    let n: usize = raw.len();
    let mut i: usize = 0;
    assert(all.take(0) =~= Seq::<RawMessage>::empty());
    assert(message_views(messages@) =~= Seq::<(ChatRole, Seq<char>)>::empty());
    while i < n
        invariant
            i <= n,
            n == all.len(),
            raw@ == all,
            messages_of(all.take(i as int)) == Ok::<Seq<(ChatRole, Seq<char>)>, MessageError>(
                message_views(messages@),
            ),
        decreases n - i,
    {
        let ghost prefix = all.take(i + 1);
        proof {
            assert(prefix.drop_last() =~= all.take(i as int));
            assert(prefix.last() == all[i as int]);
            lemma_error_stays(all, i + 1);
        }
        let ghost before = message_views(messages@);
        let is_user: bool = same_text(raw[i].role.as_str(), "user");
        let is_assistant: bool = same_text(raw[i].role.as_str(), "assistant");
        let role: ChatRole = if is_user {
            ChatRole::User
        } else if is_assistant {
            ChatRole::Assistant
        } else {
            return Err(MessageError::InvalidRole);
        };
        let text: String = match &raw[i].content {
            RawContent::Text(text) => text.clone(),
            RawContent::Other => {
                if is_user {
                    return Err(MessageError::InvalidUserContent);
                } else {
                    return Err(MessageError::InvalidAssistantContent);
                }
            },
        };
        messages.push(ChatMessage { role, text });
        assert(message_views(messages@) =~= before.push((role, text@)));
        i = i + 1;
    }
    assert(all.take(n as int) =~= all);
    Ok(messages)
}

/// Once a message of a chat history is refused, the whole history is refused
/// with its error.
pub proof fn lemma_error_stays(raw: Seq<RawMessage>, n: int)
    requires
        0 <= n <= raw.len(),
    ensures
        messages_of(raw.take(n)) matches Err(e) ==> messages_of(raw) == Err::<
            Seq<(ChatRole, Seq<char>)>,
            MessageError,
        >(e),
    decreases raw.len(),
{
    if n == raw.len() {
        assert(raw.take(n) =~= raw);
    } else {
        lemma_error_stays(raw.drop_last(), n);
        assert(raw.drop_last().take(n) =~= raw.take(n));
    }
}

} // verus!
