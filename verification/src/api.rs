//! VK API data model: the values the client reads from API responses, and
//! the small request-building rules around them.

use vstd::prelude::*;
use crate::text::{push_str, push_char, push_i64, decimal, string_of};

verus! {

broadcast use vstd::string::group_string_axioms;

/// User info.
#[derive(Debug)]
pub struct User {
    pub id: i64,
    pub first_name: String,
    pub last_name: String,
    pub photo_50: Option<String>,
    pub photo_100: Option<String>,
    pub online: Option<i32>,
    pub screen_name: Option<String>,
}

/// "First Last".
pub open spec fn full_name_of(u: User) -> Seq<char> {
    u.first_name@ + seq![' '] + u.last_name@
}

impl User {
    /// First and last name separated by a space.
    pub fn full_name(&self) -> (r: String)
        ensures
            r@ == full_name_of(*self),
    {
        let mut out = string_of(self.first_name.as_str());
        push_char(&mut out, ' ');
        push_str(&mut out, self.last_name.as_str());
        out
    }

    /// Whether the API reports the user online (`online == 1`).
    pub fn is_online(&self) -> (r: bool)
        ensures
            r == (self.online == Some(1i32)),
    {
        match self.online {
            Some(v) => v == 1,
            None => false,
        }
    }
}

impl Clone for User {
    fn clone(&self) -> (r: Self)
        ensures
            r == *self,
    {
        User {
            id: self.id,
            first_name: self.first_name.clone(),
            last_name: self.last_name.clone(),
            photo_50: crate::models::clone_opt_string(&self.photo_50),
            photo_100: crate::models::clone_opt_string(&self.photo_100),
            online: self.online,
            screen_name: crate::models::clone_opt_string(&self.screen_name),
        }
    }
}

/// Last seen info.
#[derive(Debug)]
pub struct LastSeen {
    pub time: i64,
    pub platform: i32,
}

/// Photo size info.
#[derive(Debug)]
pub struct PhotoSize {
    pub url: Option<String>,
    pub width: Option<u32>,
    pub height: Option<u32>,
}

/// Photo attachment.
#[derive(Debug)]
pub struct Photo {
    pub id: i64,
    pub owner_id: i64,
    pub sizes: Vec<PhotoSize>,
}

/// Document attachment.
#[derive(Debug)]
pub struct Doc {
    pub id: i64,
    pub owner_id: i64,
    pub title: Option<String>,
    pub url: Option<String>,
    pub size: Option<u64>,
    pub extension: Option<String>,
}

/// The fields of a `link` attachment object that the client reads; a field
/// is `None` when it is absent or not a string.
#[derive(Debug)]
pub struct LinkFields {
    pub title: Option<String>,
    pub url: Option<String>,
}

/// The fields of an `audio` attachment object that the client reads.
#[derive(Debug)]
pub struct AudioFields {
    pub artist: Option<String>,
    pub title: Option<String>,
}

/// One entry of a sticker's `images` array: its `url` when that is a string
/// and its `width` when that is an unsigned integer.
#[derive(Debug)]
pub struct StickerImage {
    pub url: Option<String>,
    pub width: Option<u64>,
}

/// Message attachment. Besides photos and documents, the object the API
/// sends under the attachment's type is kept as the fields the client reads:
/// `link` when it is an object, `audio` when it is an object, and the
/// sticker's `images` when that is an array.
#[derive(Debug)]
pub struct Attachment {
    pub attachment_type: String,
    pub photo: Option<Photo>,
    pub doc: Option<Doc>,
    pub link: Option<LinkFields>,
    pub audio: Option<AudioFields>,
    pub sticker_images: Option<Vec<StickerImage>>,
}

/// Result of sending a message.
#[derive(Debug)]
pub struct SentMessage {
    pub message_id: i64,
    pub conversation_message_id: i64,
}

/// Message.
#[derive(Debug)]
pub struct Message {
    pub id: i64,
    pub from_id: i64,
    pub peer_id: i64,
    pub date: i64,
    pub text: String,
    pub out: Option<i32>,
    pub read_state: Option<i32>,
    pub attachments: Vec<Attachment>,
    pub conversation_message_id: Option<i64>,
    pub fwd_messages: Vec<Message>,
    pub reply_message: Option<Box<Message>>,
    pub update_time: Option<i64>,
}

impl Message {
    /// Whether the message was sent by the current user (`out == 1`).
    pub fn is_outgoing(&self) -> (r: bool)
        ensures
            r == (self.out == Some(1i32)),
    {
        match self.out {
            Some(v) => v == 1,
            None => false,
        }
    }

    /// Whether the message has been read (`read_state == 1`).
    pub fn is_read(&self) -> (r: bool)
        ensures
            r == (self.read_state == Some(1i32)),
    {
        match self.read_state {
            Some(v) => v == 1,
            None => false,
        }
    }
}

/// Peer info.
#[derive(Debug)]
pub struct Peer {
    pub id: i64,
    pub peer_type: String,
    pub local_id: Option<i64>,
}

/// Can-write status for conversations.
#[derive(Debug)]
pub struct CanWrite {
    pub allowed: bool,
    pub reason: Option<i32>,
}

/// Chat photo.
#[derive(Debug)]
pub struct ChatPhoto {
    pub photo_50: Option<String>,
    pub photo_100: Option<String>,
}

/// Chat settings for group chats.
#[derive(Debug)]
pub struct ChatSettings {
    pub title: String,
    pub members_count: Option<i32>,
    pub photo: Option<ChatPhoto>,
}

/// Conversation info.
#[derive(Debug)]
pub struct Conversation {
    pub peer: Peer,
    pub unread_count: Option<u32>,
    pub chat_settings: Option<ChatSettings>,
    pub can_write: Option<CanWrite>,
    pub in_read: Option<i64>,
    pub out_read: Option<i64>,
}

/// Conversation item from getConversations.
#[derive(Debug)]
pub struct ConversationItem {
    pub conversation: Conversation,
    pub last_message: Message,
}

/// VK Group/Community.
#[derive(Debug)]
pub struct Group {
    pub id: i64,
    pub name: String,
    pub screen_name: String,
    pub photo_50: Option<String>,
    pub photo_100: Option<String>,
    pub photo_200: Option<String>,
    pub is_closed: Option<i32>,
    pub verified: Option<bool>,
    pub group_type: Option<String>,
}

/// Messages history response.
#[derive(Debug)]
pub struct MessagesHistoryResponse {
    pub count: i32,
    pub items: Vec<Message>,
    pub profiles: Vec<User>,
    pub groups: Vec<Group>,
    pub conversations: Vec<Conversation>,
}

/// Conversations list response.
#[derive(Debug)]
pub struct ConversationsResponse {
    pub count: i32,
    pub items: Vec<ConversationItem>,
    pub profiles: Vec<User>,
    pub groups: Vec<Group>,
}

/// Search messages response (extended).
#[derive(Debug)]
pub struct SearchResponse {
    pub count: i32,
    pub items: Vec<Message>,
    pub profiles: Vec<User>,
    pub groups: Vec<Group>,
    pub conversations: Vec<Conversation>,
}

/// VK API error.
#[derive(Debug)]
pub struct VkError {
    pub error_code: i32,
    pub error_msg: String,
}

/// VK API response wrapper.
#[derive(Debug)]
pub struct VkResponse<T> {
    pub response: Option<T>,
    pub error: Option<VkError>,
}

/// Long Poll server info.
#[derive(Debug)]
pub struct LongPollServer {
    pub key: String,
    pub server: String,
    pub ts: String,
}

/// Long Poll history.
#[derive(Debug)]
pub struct LongPollHistory {
    pub messages: Vec<Message>,
    pub profiles: Vec<User>,
    pub new_pts: Option<i64>,
}

/// City information.
#[derive(Debug)]
pub struct City {
    pub id: i64,
    pub title: String,
}

/// Country information.
#[derive(Debug)]
pub struct Country {
    pub id: i64,
    pub title: String,
}

/// Account counters (unread messages, friend requests, etc.).
#[derive(Debug)]
pub struct Counters {
    pub messages: Option<u32>,
    pub friends: Option<u32>,
    pub notifications: Option<u32>,
    pub groups: Option<u32>,
}

/// Profile information.
#[derive(Debug)]
pub struct ProfileInfo {
    pub first_name: String,
    pub last_name: String,
    pub screen_name: Option<String>,
    pub status: Option<String>,
    pub bdate: Option<String>,
    pub city: Option<City>,
    pub country: Option<Country>,
    pub home_town: Option<String>,
}

/// Upload server info.
#[derive(Debug)]
pub struct UploadServer {
    pub upload_url: String,
}

/// Photo upload response.
#[derive(Debug)]
pub struct PhotoUploadResponse {
    pub server: i64,
    pub photo: String,
    pub hash: String,
}

/// Saved photo info.
#[derive(Debug)]
pub struct SavedPhoto {
    pub id: i64,
    pub owner_id: i64,
}

/// Document info returned from docs.save.
#[derive(Debug)]
pub struct DocInfo {
    pub id: i64,
    pub owner_id: i64,
    pub title: Option<String>,
    pub size: Option<u64>,
    pub ext: Option<String>,
    pub url: Option<String>,
}

/// Saved document info.
#[derive(Debug)]
pub struct SavedDoc {
    pub kind: String,
    pub doc: Option<DocInfo>,
}

/// Document upload response.
#[derive(Debug)]
pub struct UploadDocResponse {
    pub file: Option<String>,
    pub error: Option<String>,
    pub error_descr: Option<String>,
}

/// User subscriptions.
#[derive(Debug)]
pub struct Subscriptions {
    pub users: Vec<i64>,
    pub groups: Vec<i64>,
}

/// Reaction type.
#[derive(Debug)]
pub struct Reaction {
    pub reaction_id: i64,
    pub title: String,
}

/// Activity types for setActivity.
#[derive(Debug, Clone, Copy, PartialEq, Eq, Structural)]
pub enum ActivityType {
    Typing,
    AudioMessage,
}

impl ActivityType {
    /// The API name of the activity.
    pub fn as_str(&self) -> (r: &'static str)
        ensures
            *self == ActivityType::Typing ==> r@ == "typing"@,
            *self == ActivityType::AudioMessage ==> r@ == "audiomessage"@,
    {
        match self {
            ActivityType::Typing => "typing",
            ActivityType::AudioMessage => "audiomessage",
        }
    }
}

/// A uniformly random `u32` from the thread-local generator
/// (`rand::thread_rng().gen::<u32>()`); the value depends on chance, so
/// nothing is stated of it beyond its type.
#[verifier::external_body]
fn random_u32() -> (r: u32) {
    rand::Rng::gen::<u32>(&mut rand::thread_rng())
}

/// The `random_id` the API wants from a drawn `u32`: the value itself, with
/// zero replaced by one.
pub fn random_id_from(x: u32) -> (r: i64)
    ensures
        r == if x == 0 { 1 } else { x as int },
{
    if x == 0 {
        1
    } else {
        x as i64
    }
}

/// A fresh random message id for `messages.send`, between 1 and `u32::MAX`.
pub fn generate_random_id() -> (r: i64)
    ensures
        1 <= r <= u32::MAX,
{
    random_id_from(random_u32())
}

/// Largest file the client uploads, in bytes (50 MB).
pub const MAX_UPLOAD_BYTES: u64 = 52428800;

/// Accepts a file of `len` bytes for upload, or names the reason it is
/// refused: files over 50 MB are rejected.
pub fn check_upload_size(len: u64) -> (r: Result<(), String>)
    ensures
        r is Ok <==> len <= MAX_UPLOAD_BYTES,
        r matches Err(e) ==> e@ == "File is too large ("@ + decimal(len as int) + " bytes, limit "@
            + decimal(MAX_UPLOAD_BYTES as int) + " bytes)"@,
{
    if len > MAX_UPLOAD_BYTES {
        let mut e = string_of("File is too large (");
        crate::text::push_u64_digits(&mut e, len);
        push_str(&mut e, " bytes, limit ");
        crate::text::push_u64_digits(&mut e, MAX_UPLOAD_BYTES);
        push_str(&mut e, " bytes)");
        return Err(e);
    }
    Ok(())
}

/// The attachment reference `doc{owner_id}_{id}` used by `messages.send`.
pub fn doc_attachment_ref(owner_id: i64, id: i64) -> (r: String)
    ensures
        r@ == "doc"@ + decimal(owner_id as int) + "_"@ + decimal(id as int),
{
    let mut out = string_of("doc");
    push_i64(&mut out, owner_id);
    push_str(&mut out, "_");
    push_i64(&mut out, id);
    out
}

} // verus!
