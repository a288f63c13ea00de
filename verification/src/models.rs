//! Frontend-independent domain models: chats, messages, attachments.

use vstd::prelude::*;

verus! {

/// A chat/conversation in the list.
#[derive(Debug)]
pub struct Chat {
    pub id: i64,
    pub title: String,
    pub last_message: String,
    pub last_message_time: i64,
    pub unread_count: u32,
    pub is_online: bool,
}

impl Clone for Chat {
    fn clone(&self) -> (r: Self)
        ensures
            r == *self,
    {
        Chat {
            id: self.id,
            title: self.title.clone(),
            last_message: self.last_message.clone(),
            last_message_time: self.last_message_time,
            unread_count: self.unread_count,
            is_online: self.is_online,
        }
    }
}

/// Type of attachment.
#[derive(Debug)]
pub enum AttachmentKind {
    Photo,
    Doc,
    Link,
    Audio,
    Sticker,
    Other(String),
}

impl Clone for AttachmentKind {
    fn clone(&self) -> (r: Self)
        ensures
            r == *self,
    {
        match self {
            AttachmentKind::Photo => AttachmentKind::Photo,
            AttachmentKind::Doc => AttachmentKind::Doc,
            AttachmentKind::Link => AttachmentKind::Link,
            AttachmentKind::Audio => AttachmentKind::Audio,
            AttachmentKind::Sticker => AttachmentKind::Sticker,
            AttachmentKind::Other(s) => AttachmentKind::Other(s.clone()),
        }
    }
}

/// Summary information about an attachment.
#[derive(Debug)]
pub struct AttachmentInfo {
    pub kind: AttachmentKind,
    pub title: String,
    pub url: Option<String>,
    pub size: Option<u64>,
    pub subtitle: Option<String>,
}

/// Copies an optional string.
pub fn clone_opt_string(s: &Option<String>) -> (r: Option<String>)
    ensures
        r == *s,
{
    match s {
        Some(t) => Some(t.clone()),
        None => None,
    }
}

impl Clone for AttachmentInfo {
    fn clone(&self) -> (r: Self)
        ensures
            r == *self,
    {
        AttachmentInfo {
            kind: self.kind.clone(),
            title: self.title.clone(),
            url: clone_opt_string(&self.url),
            size: self.size,
            subtitle: clone_opt_string(&self.subtitle),
        }
    }
}

/// Delivery state for messages.
#[derive(Debug, Clone, Copy, PartialEq, Eq, Structural)]
pub enum DeliveryStatus {
    Pending,
    Sent,
    Failed,
}

/// Preview of a reply message.
#[derive(Debug)]
pub struct ReplyPreview {
    pub from: String,
    pub text: String,
    pub attachments: Vec<AttachmentInfo>,
}

/// A forwarded message item (can be nested).
#[derive(Debug)]
pub struct ForwardItem {
    pub from: String,
    pub text: String,
    pub attachments: Vec<AttachmentInfo>,
    pub nested: Vec<ForwardItem>,
}

/// A single message in a conversation.
#[derive(Debug)]
pub struct ChatMessage {
    pub id: i64,
    pub cmid: Option<i64>,
    pub from_id: i64,
    pub from_name: String,
    pub text: String,
    pub timestamp: i64,
    pub is_outgoing: bool,
    pub is_read: bool,
    pub is_edited: bool,
    pub is_pinned: bool,
    pub delivery: DeliveryStatus,
    pub attachments: Vec<AttachmentInfo>,
    pub reply: Option<ReplyPreview>,
    pub fwd_count: usize,
    pub forwards: Vec<ForwardItem>,
}

impl ChatMessage {
    /// The peer the message belongs to, as far as the message itself tells:
    /// its sender.
    pub fn peer_id(&self) -> (r: i64)
        ensures
            r == self.from_id,
    {
        self.from_id
    }
}

/// Search result item.
#[derive(Debug)]
pub struct SearchResult {
    pub message_id: i64,
    pub peer_id: i64,
    pub from_id: i64,
    pub from_name: String,
    pub chat_title: String,
    pub text: String,
    pub timestamp: i64,
}

impl Clone for SearchResult {
    fn clone(&self) -> (r: Self)
        ensures
            r == *self,
    {
        SearchResult {
            message_id: self.message_id,
            peer_id: self.peer_id,
            from_id: self.from_id,
            from_name: self.from_name.clone(),
            chat_title: self.chat_title.clone(),
            text: self.text.clone(),
            timestamp: self.timestamp,
        }
    }
}

} // verus!
