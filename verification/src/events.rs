//! Events from the VK long poll and from background work, and the commands
//! frontends send to the core.

use vstd::prelude::*;
use crate::models::{AttachmentInfo, Chat, ChatMessage, ForwardItem, ReplyPreview, SearchResult};
use crate::api::User;

verus! {

/// Events from the VK Long Poll API.
#[derive(Debug)]
pub enum VkEvent {
    /// New message received.
    NewMessage { message_id: i64, peer_id: i64, timestamp: i64, text: String, from_id: i64, is_outgoing: bool },
    /// Message read.
    MessageRead { peer_id: i64, message_id: i64 },
    /// Message edited (from Long Poll).
    MessageEditedFromLongPoll { peer_id: i64, message_id: i64 },
    /// Message deleted (from Long Poll).
    MessageDeletedFromLongPoll { peer_id: i64, message_id: i64 },
    /// User typing.
    UserTyping { peer_id: i64, user_id: i64 },
    /// Connection status changed.
    ConnectionStatus(bool),
}

/// Events from the core to frontends.
#[derive(Debug)]
pub enum CoreEvent {
    /// Conversations loaded from the API.
    ConversationsLoaded { chats: Vec<Chat>, profiles: Vec<User>, total_count: u32, has_more: bool },
    /// Messages loaded from the API.
    MessagesLoaded { peer_id: i64, messages: Vec<ChatMessage>, profiles: Vec<User>, total_count: u32, has_more: bool },
    /// Search results loaded.
    SearchResultsLoaded { results: Vec<SearchResult>, total_count: i32 },
    /// Message sent successfully.
    MessageSent { message_id: i64, cmid: i64 },
    /// Message edited successfully.
    MessageEdited { message_id: i64 },
    /// Message deleted successfully.
    MessageDeleted { message_id: i64 },
    /// Message details fetched (for updating cmid, attachments, etc).
    MessageDetailsFetched {
        message_id: i64,
        cmid: Option<i64>,
        text: Option<String>,
        is_edited: bool,
        attachments: Option<Vec<AttachmentInfo>>,
        reply: Option<ReplyPreview>,
        fwd_count: Option<usize>,
        forwards: Option<Vec<ForwardItem>>,
    },
    /// VK Long Poll event.
    VkEvent(VkEvent),
    /// Error occurred.
    Error(String),
    /// Send operation failed.
    SendFailed(String),
}

/// Synchronous commands (immediate state changes).
#[derive(Debug)]
pub enum Command {
    /// Select a chat by index.
    SelectChat(usize),
    /// Select a message by index.
    SelectMessage(usize),
    /// Clear current messages.
    ClearMessages,
    /// Update user cache.
    UpdateUsers(Vec<User>),
}

/// Commands that require API calls.
#[derive(Debug)]
pub enum AsyncCommand {
    LoadConversations { offset: u32 },
    LoadMessages { peer_id: i64, offset: u32 },
    LoadMessagesAround { peer_id: i64, message_id: i64 },
    LoadMessagesWithOffset { peer_id: i64, start_cmid: i64, offset: i32, count: u32 },
    LoadMessagesWithStartMessageId { peer_id: i64, start_message_id: i64, offset: i32, count: u32 },
    SendMessage { peer_id: i64, text: String },
    SendReply { peer_id: i64, reply_to: i64, text: String },
    SendForward { peer_id: i64, message_ids: Vec<i64>, comment: String },
    EditMessage { peer_id: i64, message_id: i64, cmid: Option<i64>, text: String },
    DeleteMessage { peer_id: i64, message_id: i64, for_all: bool },
    SendPhoto { peer_id: i64, path: String },
    SendDoc { peer_id: i64, path: String },
    DownloadAttachments { attachments: Vec<AttachmentInfo> },
    SearchMessages { query: String, peer_id: Option<i64> },
    StartLongPoll,
    MarkAsRead { peer_id: i64 },
    FetchMessageById { message_id: i64 },
}

} // verus!
