use vstd::prelude::*;

use crate::coordinator::FetchRequest;

verus! {

/// Connection lifecycle actions of the client's socket.
#[derive(Clone, Copy, Debug, PartialEq, Eq, Structural)]
pub enum WsAction {
    Connect,
    Disconnect,
    Lost,
}

/// Progress of a long-running engine task.
#[derive(Clone, Copy, Debug, PartialEq, Eq, Structural)]
pub enum Progress {
    Success,
    Error,
    Step(usize),
}

/// A log line forwarded from the engine.
#[derive(Clone, Debug, PartialEq, Eq)]
pub enum Log {
    Info(String),
    Warning(String),
    Error(String),
}

/// An event pushed from the server to its clients.
#[derive(Clone, Debug, PartialEq, Eq)]
pub enum Event {
    Configure(Progress),
    Imex(Progress),
    Connected,
    MessagesChanged { chat_id: u32 },
    MessageIncoming { chat_id: u32, title: String, body: String },
    Log(Log),
}

impl Event {
    /// Which cached windows an event invalidates: a message change or an
    /// incoming message refreshes the chat list, and also the message list
    /// when it concerns the selected chat.  The pair is
    /// `(refresh_chat_list, refresh_message_list)`.
    pub fn refresh_needs(&self, selected_chat_id: Option<u32>) -> (r: (bool, bool))
        ensures
            r == (match *self {
                Event::MessagesChanged { chat_id } => (
                    true,
                    selected_chat_id == Some(chat_id),
                ),
                Event::MessageIncoming { chat_id, .. } => (
                    true,
                    selected_chat_id == Some(chat_id),
                ),
                _ => (false, false),
            }),
    {
        match self {
            Event::MessagesChanged { chat_id } => (
                true,
                match selected_chat_id {
                    Some(id) => id == *chat_id,
                    None => false,
                },
            ),
            Event::MessageIncoming { chat_id, .. } => (
                true,
                match selected_chat_id {
                    Some(id) => id == *chat_id,
                    None => false,
                },
            ),
            _ => (false, false),
        }
    }
}

/// How far a stored account has come toward a working login.
#[derive(Clone, Debug, PartialEq, Eq)]
pub enum Login {
    Success,
    Error(String),
    Progress(usize),
    Not,
}

impl Default for Login {
    fn default() -> (r: Login)
        ensures
            r == Login::Not,
    {
        Login::Not
    }
}

/// The kind of a message file attachment.
#[derive(Clone, Copy, Debug, PartialEq, Eq, Structural)]
pub enum Viewtype {
    Unknown,
    Text,
    Image,
    Gif,
    Sticker,
    Audio,
    Voice,
    Video,
    File,
    VideochatInvitation,
}

impl Viewtype {
    /// The numeric code of this kind on the wire.
    pub open spec fn spec_code(self) -> int {
        match self {
            Viewtype::Unknown => 0,
            Viewtype::Text => 10,
            Viewtype::Image => 20,
            Viewtype::Gif => 21,
            Viewtype::Sticker => 23,
            Viewtype::Audio => 40,
            Viewtype::Voice => 41,
            Viewtype::Video => 50,
            Viewtype::File => 60,
            Viewtype::VideochatInvitation => 70,
        }
    }

    pub fn code(&self) -> (r: i32)
        ensures
            r == self.spec_code(),
    {
        match self {
            Viewtype::Unknown => 0,
            Viewtype::Text => 10,
            Viewtype::Image => 20,
            Viewtype::Gif => 21,
            Viewtype::Sticker => 23,
            Viewtype::Audio => 40,
            Viewtype::Voice => 41,
            Viewtype::Video => 50,
            Viewtype::File => 60,
            Viewtype::VideochatInvitation => 70,
        }
    }

    /// The kind with the given numeric code, exactly for the codes that
    /// [`Viewtype::code`] emits.
    pub fn from_code(code: i32) -> (r: Option<Viewtype>)
        ensures
            r matches Some(v) ==> v.spec_code() == code,
            r is None ==> forall|v: Viewtype| v.spec_code() != code,
    {
        match code {
            0 => Some(Viewtype::Unknown),
            10 => Some(Viewtype::Text),
            20 => Some(Viewtype::Image),
            21 => Some(Viewtype::Gif),
            23 => Some(Viewtype::Sticker),
            40 => Some(Viewtype::Audio),
            41 => Some(Viewtype::Voice),
            50 => Some(Viewtype::Video),
            60 => Some(Viewtype::File),
            70 => Some(Viewtype::VideochatInvitation),
            _ => None,
        }
    }
}

/// Every kind survives the trip through its wire code.
pub proof fn lemma_viewtype_code_unique(a: Viewtype, b: Viewtype)
    requires
        a.spec_code() == b.spec_code(),
    ensures
        a == b,
{
}

/// A request sent from a client to the server.
#[derive(Clone, Debug, PartialEq, Eq)]
pub enum Request {
    Login { email: String, password: String },
    Import { path: String },
    SelectChat { account: u32, chat_id: u32 },
    LoadChatList { start_index: usize, stop_index: usize },
    LoadMessageList { start_index: usize, stop_index: usize },
    SelectAccount { account: u32 },
    SendTextMessage { text: String },
    SendFileMessage { typ: Viewtype, path: String, text: Option<String>, mime: Option<String> },
    MaybeNetwork,
    AcceptContactRequest { account: u32, chat_id: u32 },
    BlockContact { account: u32, chat_id: u32 },
}

impl Request {
    /// The wire request for a chat-list window fetch.  The request token is
    /// not part of the wire vocabulary; the sender keeps it beside the
    /// connection to match the response.
    pub fn chat_list_fetch(req: &FetchRequest) -> (r: Request)
        ensures
            r == (Request::LoadChatList {
                start_index: req.start_index,
                stop_index: req.stop_index,
            }),
    {
        Request::LoadChatList { start_index: req.start_index, stop_index: req.stop_index }
    }

    /// The wire request for a message-list window fetch.
    pub fn message_list_fetch(req: &FetchRequest) -> (r: Request)
        ensures
            r == (Request::LoadMessageList {
                start_index: req.start_index,
                stop_index: req.stop_index,
            }),
    {
        Request::LoadMessageList { start_index: req.start_index, stop_index: req.stop_index }
    }

    /// The window a request asks to fetch, for the two windowing requests
    /// and no others.
    pub fn requested_range(&self) -> (r: Option<(usize, usize)>)
        ensures
            r == (match *self {
                Request::LoadChatList { start_index, stop_index } => Some(
                    (start_index, stop_index),
                ),
                Request::LoadMessageList { start_index, stop_index } => Some(
                    (start_index, stop_index),
                ),
                _ => None::<(usize, usize)>,
            }),
    {
        match self {
            Request::LoadChatList { start_index, stop_index } => Some((*start_index, *stop_index)),
            Request::LoadMessageList { start_index, stop_index } => Some(
                (*start_index, *stop_index),
            ),
            _ => None,
        }
    }
}

} // verus!
