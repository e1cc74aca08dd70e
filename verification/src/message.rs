//! The message data model: typed payloads, messages, and the change events a
//! live feed delivers for them.

use vstd::prelude::*;

verus! {

/// A plain text message body.
pub struct TextPayload {
    pub content: String,
}

/// An image reference with an optional caption.
pub struct ImagePayload {
    pub url: String,
    pub caption: Option<String>,
}

/// A video reference with its duration in seconds.
pub struct VideoPayload {
    pub url: String,
    pub duration: u32,
}

/// The closed set of message payload variants.
pub enum Payload {
    Text(TextPayload),
    Image(ImagePayload),
    Video(VideoPayload),
}

/// One message record: who sent it, whom it is addressed to, its payload, and
/// the creation timestamp the store assigned.
pub struct Message {
    pub from: String,
    pub to: String,
    pub payload: Payload,
    pub created: u64,
}

/// The action kind of a change event delivered by a live feed.
#[derive(Clone, Copy, Debug, PartialEq, Eq, Structural)]
pub enum Action {
    Create,
    Update,
    Delete,
}

/// One event of a live change feed: an action together with the record it
/// concerns.
pub struct ChangeEvent {
    pub action: Action,
    pub data: Message,
}

impl Clone for TextPayload {
    fn clone(&self) -> (r: Self)
        ensures
            r == *self,
    {
        TextPayload { content: self.content.clone() }
    }
}

impl Clone for ImagePayload {
    fn clone(&self) -> (r: Self)
        ensures
            r == *self,
    {
        ImagePayload {
            url: self.url.clone(),
            caption: match &self.caption {
                Some(c) => Some(c.clone()),
                None => None,
            },
        }
    }
}

impl Clone for VideoPayload {
    fn clone(&self) -> (r: Self)
        ensures
            r == *self,
    {
        VideoPayload { url: self.url.clone(), duration: self.duration }
    }
}

impl Clone for Payload {
    fn clone(&self) -> (r: Self)
        ensures
            r == *self,
    {
        match self {
            Payload::Text(t) => Payload::Text(t.clone()),
            Payload::Image(i) => Payload::Image(i.clone()),
            Payload::Video(v) => Payload::Video(v.clone()),
        }
    }
}

impl Clone for Message {
    fn clone(&self) -> (r: Self)
        ensures
            r == *self,
    {
        Message {
            from: self.from.clone(),
            to: self.to.clone(),
            payload: self.payload.clone(),
            created: self.created,
        }
    }
}

impl Clone for ChangeEvent {
    fn clone(&self) -> (r: Self)
        ensures
            r == *self,
    {
        ChangeEvent { action: self.action, data: self.data.clone() }
    }
}

} // verus!
