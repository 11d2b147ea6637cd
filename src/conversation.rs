use vstd::prelude::*;

verus! {

/// Who authored a message. On the wire it is the bare string that
/// [`Role::as_str`] gives.
#[derive(Clone, Copy, Debug, PartialEq, Eq, Structural)]
pub enum Role {
    User,
    System,
    Assistant,
}

pub open spec fn role_name(role: Role) -> Seq<char> {
    match role {
        Role::User => "user"@,
        Role::System => "system"@,
        Role::Assistant => "assistant"@,
    }
}

impl Role {
    pub fn as_str(&self) -> (r: &'static str)
        ensures
            r@ == role_name(*self),
    {
        match self {
            Role::User => "user",
            Role::System => "system",
            Role::Assistant => "assistant",
        }
    }
}

/// One message of a conversation.
#[derive(Clone, Debug, PartialEq, Eq)]
pub struct GreptileMessage {
    pub id: String,
    pub content: String,
    pub role: Role,
}

/// Relies on uuid's `Uuid::new_v4` and its `Display`: a random version-4
/// UUID in hyphenated form, 36 characters.
#[verifier::external_body]
fn new_message_id() -> (r: String)
    ensures
        r@.len() == 36,
{
    uuid::Uuid::new_v4().to_string()
}

impl GreptileMessage {
    /// A message with a given id.
    pub fn with_id(id: String, content: String, role: Role) -> (r: Self)
        ensures
            r.id == id,
            r.content == content,
            r.role == role,
    {
        GreptileMessage { id, content, role }
    }

    pub fn user(content: String) -> (r: Self)
        ensures
            r.content == content,
            r.role == Role::User,
            r.id@.len() == 36,
    {
        Self::with_id(new_message_id(), content, Role::User)
    }

    pub fn system(content: String) -> (r: Self)
        ensures
            r.content == content,
            r.role == Role::System,
            r.id@.len() == 36,
    {
        Self::with_id(new_message_id(), content, Role::System)
    }

    pub fn assistant(content: String) -> (r: Self)
        ensures
            r.content == content,
            r.role == Role::Assistant,
            r.id@.len() == 36,
    {
        Self::with_id(new_message_id(), content, Role::Assistant)
    }
}

} // verus!
