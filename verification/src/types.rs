//! The plain data that travels between the relay, the chat platform and the
//! command handlers.

use vstd::prelude::*;

verus! {

/// Name and value of each argument that a command was given, in the order of
/// the command's declaration.
pub type ArgTuple = Vec<(String, String)>;

/// A command handler that is a plain function: it is given the required and
/// the optional arguments that a message bound. The alias is for callers in
/// ordinary Rust; verified callers hand the parser a function item or a
/// closure.
pub type Callback = fn(&ArgTuple, &ArgTuple);

/// What the relay answers to a registration: the address of the socket that
/// was set aside for the caller.
#[derive(Clone, Debug, PartialEq, Eq)]
pub struct RegisterResponse {
    pub url: String,
}

impl View for RegisterResponse {
    type V = Seq<char>;

    open spec fn view(&self) -> Seq<char> {
        self.url@
    }
}

/// The body of a registration: who registers, and the groups whose traffic
/// the caller wants. Without a group the session receives nothing.
#[derive(Clone, Debug, PartialEq, Eq)]
pub struct Register {
    pub user_id: u16,
    pub groups: Vec<String>,
}

/// A registration as contracts see it.
pub struct RegisterView {
    pub user_id: u16,
    pub groups: Seq<Seq<char>>,
}

impl View for Register {
    type V = RegisterView;

    open spec fn view(&self) -> RegisterView {
        RegisterView { user_id: self.user_id, groups: self.groups.deep_view() }
    }
}

/// The body of a publication: the sender, the group that is addressed, and
/// the payload as JSON text.
#[derive(Clone, Debug, PartialEq, Eq)]
pub struct Publish {
    pub user_id: u16,
    pub group: String,
    pub message: String,
}

/// A publication as contracts see it.
pub struct PublishView {
    pub user_id: u16,
    pub group: Seq<char>,
    pub message: Seq<char>,
}

impl View for Publish {
    type V = PublishView;

    open spec fn view(&self) -> PublishView {
        PublishView { user_id: self.user_id, group: self.group@, message: self.message@ }
    }
}

/// The chat platform's description of one message.
#[derive(Debug)]
pub struct MessageEventResponse {
    pub id: String,
    pub room_id: String,
    pub room_type: String,
    pub person_id: String,
    pub person_email: String,
    pub mentioned_people: Box<[String]>,
    pub created: String,
}

/// The envelope in which the chat platform delivers an event of kind `T`.
#[derive(Debug)]
pub struct Response<T> {
    pub id: String,
    pub name: String,
    pub target_url: String,
    pub resource: String,
    pub event: String,
    pub created: String,
    pub actor_id: String,
    pub data: T,
}

} // verus!
