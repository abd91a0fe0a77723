//! Chat messages: the role taxonomy, the message value, and its builder.

use vstd::prelude::*;

use crate::decode::{find_field, opt_str_list_field, req_str_field, spec_opt_str_list, spec_req_str};
use crate::json::{Json, JsonV};
use crate::ser::{spec_quoted, spec_str_array};
use crate::text::{lower_chars, string_from_chars};
use vstd::string::*;

verus! {

/// The role of a chat message: either system, user or assistant.
#[derive(Debug, Clone, Copy, PartialEq, Eq, Structural)]
pub enum Role {
    System,
    User,
    Assistant,
}

/// The wire name of a role.
pub open spec fn role_text(r: Role) -> Seq<char> {
    match r {
        Role::System => "system"@,
        Role::User => "user"@,
        Role::Assistant => "assistant"@,
    }
}

/// The role whose wire name is `s`, if any.  Wire names are matched exactly.
pub open spec fn spec_role_of(s: Seq<char>) -> Option<Role> {
    if s == "system"@ {
        Some(Role::System)
    } else if s == "user"@ {
        Some(Role::User)
    } else if s == "assistant"@ {
        Some(Role::Assistant)
    } else {
        None
    }
}

impl Role {
    /// The wire name of the role.
    pub fn as_str(&self) -> (s: &'static str)
        ensures
            s@ == role_text(*self),
    {
        match self {
            Role::System => "system",
            Role::User => "user",
            Role::Assistant => "assistant",
        }
    }

    /// The wire name of the role as an owned string.
    pub fn to_string(&self) -> (s: String)
        ensures
            s@ == role_text(*self),
    {
        String::from_str(self.as_str())
    }

    /// Serializes the role for the wire: its name as a JSON string.
    pub fn to_json(&self) -> (r: String)
        ensures
            r@ == spec_quoted(role_text(*self)),
    {
        let v: Vec<char> = Vec::new();
        let v = crate::ser::append_quoted(v, self.as_str());
        proof {
            assert(v@ =~= spec_quoted(role_text(*self)));
        }
        string_from_chars(&v)
    }

    /// The role named by `s`, compared without regard to ASCII case.
    pub fn parse(s: &str) -> (r: Option<Role>)
        ensures
            r == spec_role_of(lower_chars(s@)),
    {
        let low = crate::text::to_ascii_lower(s);
        if crate::text::chars_eq_str(&low, "system") {
            Some(Role::System)
        } else if crate::text::chars_eq_str(&low, "user") {
            Some(Role::User)
        } else if crate::text::chars_eq_str(&low, "assistant") {
            Some(Role::Assistant)
        } else {
            None
        }
    }
}

/// A value that names a role: either a [`Role`] itself or a string holding a
/// role name in any ASCII case.
pub trait IntoRole: Sized {
    /// Whether the value names a role.
    spec fn is_role(&self) -> bool;

    /// The role the value names.
    spec fn as_role(&self) -> Role;

    /// Converts the value into the role it names.
    fn into_role(self) -> (r: Role)
        requires
            self.is_role(),
        ensures
            r == self.as_role(),
    ;
}

impl IntoRole for Role {
    open spec fn is_role(&self) -> bool {
        true
    }

    open spec fn as_role(&self) -> Role {
        *self
    }

    fn into_role(self) -> Role {
        self
    }
}

impl IntoRole for &str {
    open spec fn is_role(&self) -> bool {
        spec_role_of(lower_chars(self@)) is Some
    }

    open spec fn as_role(&self) -> Role {
        spec_role_of(lower_chars(self@))->Some_0
    }

    fn into_role(self) -> Role {
        match Role::parse(self) {
            Some(r) => r,
            None => {
                proof {
                    assert(false);
                }
                Role::User
            },
        }
    }
}

/// Mathematical model of a [`Message`].
pub struct MessageV {
    pub role: Role,
    pub content: Seq<char>,
    pub images: Option<Seq<Seq<char>>>,
}

/// One message of a chat: who speaks, what is said, and optionally a list of
/// base64-encoded images for multimodal models.
#[derive(Debug, Clone, PartialEq, Eq)]
pub struct Message {
    /// The role of the message, either system, user or assistant.
    pub role: Role,
    /// The content of the message.
    pub content: String,
    /// A list of images to include in the message.
    pub images: Option<Vec<String>>,
}

impl View for Message {
    type V = MessageV;

    open spec fn view(&self) -> MessageV {
        MessageV {
            role: self.role,
            content: self.content@,
            images: match self.images {
                None => None,
                Some(v) => Some(v.deep_view()),
            },
        }
    }
}

/// The wire form of a message: role and content, and the image list only
/// when it is set.
pub open spec fn spec_message_json(m: MessageV) -> Seq<char> {
    "{\"role\":"@ + spec_quoted(role_text(m.role)) + ",\"content\":"@ + spec_quoted(m.content)
        + (match m.images {
        None => Seq::<char>::empty(),
        Some(list) => ",\"images\":"@ + spec_str_array(list),
    }) + "}"@
}

/// The message a JSON value denotes: an object with a `role` naming a role,
/// a `content` string, and an optional `images` string array.
pub open spec fn spec_decode_message(v: JsonV) -> Option<MessageV> {
    match v {
        JsonV::Obj(fs) => match (
            spec_req_str(fs, "role"@),
            spec_req_str(fs, "content"@),
            spec_opt_str_list(fs, "images"@),
        ) {
            (Some(role_name), Some(content), Some(images)) => match spec_role_of(role_name) {
                Some(role) => Some(MessageV { role, content, images }),
                None => None,
            },
            _ => None,
        },
        _ => None,
    }
}

impl Message {
    /// A copy with the same model.
    pub fn duplicate(&self) -> (r: Self)
        ensures
            r@ == self@,
    {
        Message {
            role: self.role,
            content: self.content.clone(),
            images: match &self.images {
                None => None,
                Some(v) => Some(crate::text::copy_strings(v)),
            },
        }
    }

    /// Serializes the message for the wire.
    pub fn to_json(&self) -> (r: String)
        ensures
            r@ == spec_message_json(self@),
    {
        let v: Vec<char> = Vec::new();
        let v = crate::text::append_str(v, "{\"role\":");
        let v = crate::ser::append_quoted(v, self.role.as_str());
        let v = crate::text::append_str(v, ",\"content\":");
        let v = crate::ser::append_quoted(v, self.content.as_str());
        let v = match &self.images {
            None => v,
            Some(imgs) => {
                let v = crate::text::append_str(v, ",\"images\":");
                crate::ser::append_str_array(v, imgs)
            },
        };
        let v = crate::text::append_str(v, "}");
        proof {
            assert(v@ =~= spec_message_json(self@));
        }
        string_from_chars(&v)
    }

    /// Reads a message from a decoded JSON value.
    pub fn from_json(j: &Json) -> (r: Option<Message>)
        ensures
            match r {
                Some(m) => spec_decode_message(j@) == Some(m@),
                None => spec_decode_message(j@) is None,
            },
    {
        let fs = match j {
            Json::Obj(fs) => fs,
            _ => {
                return None;
            },
        };
        let role = {
            let (cnt, first) = find_field(fs, "role");
            if cnt != 1 {
                return None;
            }
            match first {
                Some(ix) => match &fs[ix].1 {
                    Json::Str(cs) => {
                        if crate::text::chars_eq_str(cs, "system") {
                            Role::System
                        } else if crate::text::chars_eq_str(cs, "user") {
                            Role::User
                        } else if crate::text::chars_eq_str(cs, "assistant") {
                            Role::Assistant
                        } else {
                            return None;
                        }
                    },
                    _ => {
                        return None;
                    },
                },
                None => {
                    return None;
                },
            }
        };
        let content = match req_str_field(fs, "content") {
            Some(c) => c,
            None => {
                return None;
            },
        };
        let images = match opt_str_list_field(fs, "images") {
            Some(i) => i,
            None => {
                return None;
            },
        };
        Some(Message { role, content, images })
    }
}

/// The failure of a message build: a required field was never set, or a
/// field value failed validation.
#[derive(Debug, Clone)]
pub enum MessageBuilderError {
    UninitializedField(&'static str),
    ValidationError(String),
}

impl PartialEq for MessageBuilderError {
    fn eq(&self, other: &Self) -> (r: bool) {
        let r = match self {
            MessageBuilderError::UninitializedField(self_err) => {
                match other {
                    MessageBuilderError::UninitializedField(other_err) => crate::text::str_eq_str(
                        self_err,
                        other_err,
                    ),
                    _ => false,
                }
            },
            MessageBuilderError::ValidationError(self_err) => {
                match other {
                    MessageBuilderError::ValidationError(other_err) => crate::text::str_eq_str(
                        self_err.as_str(),
                        other_err.as_str(),
                    ),
                    _ => false,
                }
            },
        };
        r
    }
}

impl vstd::std_specs::cmp::PartialEqSpecImpl for MessageBuilderError {
    open spec fn obeys_eq_spec() -> bool {
        true
    }

    open spec fn eq_spec(&self, other: &Self) -> bool {
        match self {
            MessageBuilderError::UninitializedField(a) => match other {
                MessageBuilderError::UninitializedField(b) => a@ == b@,
                _ => false,
            },
            MessageBuilderError::ValidationError(a) => match other {
                MessageBuilderError::ValidationError(b) => a@ == b@,
                _ => false,
            },
        }
    }
}

impl Eq for MessageBuilderError {

}

/// Mathematical model of a [`MessageBuilder`]: which fields are set, and to
/// what.
pub struct MessageBuilderV {
    pub role: Option<Role>,
    pub content: Option<Seq<char>>,
    pub images: Option<Seq<Seq<char>>>,
}

/// Assembles a [`Message`] field by field.
#[derive(Debug, Clone)]
pub struct MessageBuilder {
    role: Option<Role>,
    content: Option<String>,
    images: Option<Vec<String>>,
}

impl View for MessageBuilder {
    type V = MessageBuilderV;

    closed spec fn view(&self) -> MessageBuilderV {
        MessageBuilderV {
            role: self.role,
            content: match self.content {
                Some(ref c) => Some(c@),
                None => None,
            },
            images: match self.images {
                Some(ref v) => Some(v.deep_view()),
                None => None,
            },
        }
    }
}

impl Default for MessageBuilder {
    /// A builder with nothing set.
    fn default() -> (r: Self)
        ensures
            r@.role is None && r@.content is None && r@.images is None,
    {
        MessageBuilder { role: None, content: None, images: None }
    }
}

impl MessageBuilder {
    /// Sets the role from a role or a role name.
    pub fn role<R: IntoRole>(self, role: R) -> (r: Self)
        requires
            role.is_role(),
        ensures
            r@ == (MessageBuilderV { role: Some(role.as_role()), ..self@ }),
    {
        MessageBuilder { role: Some(role.into_role()), ..self }
    }

    /// Sets the content.
    pub fn content(self, content: &str) -> (r: Self)
        ensures
            r@ == (MessageBuilderV { content: Some(content@), ..self@ }),
    {
        MessageBuilder { content: Some(String::from_str(content)), ..self }
    }

    /// Sets the image list.
    pub fn images(self, images: Vec<String>) -> (r: Self)
        ensures
            r@ == (MessageBuilderV { images: Some(images.deep_view()), ..self@ }),
    {
        MessageBuilder { images: Some(images), ..self }
    }

    /// Builds the message; each required field must have been set.  A missing
    /// field is reported in declaration order: role before content.
    pub fn build(self) -> (r: Result<Message, MessageBuilderError>)
        ensures
            match r {
                Ok(m) => self@.role == Some(m@.role) && self@.content == Some(m@.content)
                    && m@.images == self@.images,
                Err(e) => (self@.role is None && (e matches
                MessageBuilderError::UninitializedField(f) && f@ == "role"@)) || (self@.role
                    is Some && self@.content is None && (e matches
                MessageBuilderError::UninitializedField(f) && f@ == "content"@)),
            },
    {
        let role = match self.role {
            Some(r) => r,
            None => {
                return Err(MessageBuilderError::UninitializedField("role"));
            },
        };
        let content = match self.content {
            Some(c) => c,
            None => {
                return Err(MessageBuilderError::UninitializedField("content"));
            },
        };
        Ok(Message { role, content, images: self.images })
    }
}

} // verus!
