//! Mapping of VK API messages and attachments into the client's models.

use vstd::prelude::*;
use crate::text::{chars_of, chars_eq, string_of, push_str, push_i64, decimal};
use crate::models::{AttachmentInfo, AttachmentKind, ChatMessage, DeliveryStatus, ForwardItem, ReplyPreview, clone_opt_string};
use crate::api::{Attachment, Message, User, PhotoSize, StickerImage, ConversationItem, full_name_of};

verus! {

broadcast use vstd::string::group_string_axioms;

/// The first profile with the given id.
pub open spec fn find_user(profiles: Seq<User>, id: i64) -> Option<User>
    decreases profiles.len(),
{
    if profiles.len() == 0 {
        None
    } else if profiles[0].id == id {
        Some(profiles[0])
    } else {
        find_user(profiles.drop_first(), id)
    }
}

/// Name shown for a sender: the profile's full name, else "Group N" for a
/// community (negative id) or "User N".
pub open spec fn display_name(profiles: Seq<User>, id: i64) -> Seq<char> {
    match find_user(profiles, id) {
        Some(u) => full_name_of(u),
        None => if id < 0 {
            "Group "@ + decimal(-(id as int))
        } else {
            "User "@ + decimal(id as int)
        },
    }
}

/// Looking up a name needs no negation overflow: either the profile is
/// there, or the id is not `i64::MIN`.
pub open spec fn name_lookup_ok(profiles: Seq<User>, id: i64) -> bool {
    find_user(profiles, id) is Some || id != i64::MIN
}

/// Finds the first profile with id `id`, returning its index.
pub fn find_user_index(profiles: &[User], id: i64) -> (r: Option<usize>)
    ensures
        r matches Some(i) ==> i < profiles@.len() && find_user(profiles@, id) == Some(profiles@[i as int]),
        r is None ==> find_user(profiles@, id) is None,
{
    let n = profiles.len();
    let mut i: usize = 0;
    assert(profiles@.skip(0) == profiles@);
    while i < n
        invariant
            n == profiles@.len(),
            i <= n,
            find_user(profiles@, id) == find_user(profiles@.skip(i as int), id),
        decreases n - i,
    {
        assert(profiles@.skip(i as int).drop_first() == profiles@.skip(i + 1));
        if profiles[i].id == id {
            return Some(i);
        }
        i = i + 1;
    }
    None
}

/// "Group N" / "User N" for an id without a profile.
pub fn fallback_name(id: i64) -> (r: String)
    requires
        id != i64::MIN,
    ensures
        r@ == if id < 0 { "Group "@ + decimal(-(id as int)) } else { "User "@ + decimal(id as int) },
{
    if id < 0 {
        let mut out = string_of("Group ");
        push_i64(&mut out, -id);
        out
    } else {
        let mut out = string_of("User ");
        push_i64(&mut out, id);
        out
    }
}

/// Name of a sender from the profiles that came with a response.
pub fn get_name(profiles: &[User], user_id: i64) -> (r: String)
    requires
        name_lookup_ok(profiles@, user_id),
    ensures
        r@ == display_name(profiles@, user_id),
{
    match find_user_index(profiles, user_id) {
        Some(i) => profiles[i].full_name(),
        None => fallback_name(user_id),
    }
}

/// Score of a photo size: width times height, missing values counting as 0.
pub open spec fn size_score(s: PhotoSize) -> int {
    (match s.width { Some(w) => w as int, None => 0int }) * (match s.height { Some(h) => h as int, None => 0int })
}

/// The URL of the largest size that has one (the last of equally large ones).
pub open spec fn best_photo(sizes: Seq<PhotoSize>) -> Option<(String, int)>
    decreases sizes.len(),
{
    if sizes.len() == 0 {
        None
    } else {
        let prev = best_photo(sizes.drop_last());
        let s = sizes.last();
        match s.url {
            None => prev,
            Some(u) => match prev {
                Some((pu, ps)) => if size_score(s) >= ps { Some((u, size_score(s))) } else { prev },
                None => Some((u, size_score(s))),
            },
        }
    }
}

/// The widest sticker image that has a URL (the last of equally wide ones).
pub open spec fn best_sticker(imgs: Seq<StickerImage>) -> Option<(String, int)>
    decreases imgs.len(),
{
    if imgs.len() == 0 {
        None
    } else {
        let prev = best_sticker(imgs.drop_last());
        let s = imgs.last();
        let w = match s.width { Some(w) => w as int, None => 0int };
        match s.url {
            None => prev,
            Some(u) => match prev {
                Some((pu, pw)) => if w >= pw { Some((u, w)) } else { prev },
                None => Some((u, w)),
            },
        }
    }
}

/// Photo sizes whose area (width times height), by which sizes are
/// compared, fits in a `u32`.
pub open spec fn sizes_ok(sizes: Seq<PhotoSize>) -> bool {
    forall|i: int| 0 <= i < sizes.len() && (#[trigger] sizes[i]).url is Some ==> size_score(sizes[i]) <= u32::MAX
}

/// An attachment whose photo sizes (if it is a photo) have areas that fit.
pub open spec fn attachment_ok(att: Attachment) -> bool {
    att.attachment_type@ == "photo"@ ==> (att.photo matches Some(p) ==> sizes_ok(p.sizes@))
}

fn best_photo_url(sizes: &Vec<PhotoSize>) -> (r: Option<String>)
    requires
        sizes_ok(sizes@),
    ensures
        r == match best_photo(sizes@) { Some((u, _)) => Some(u), None => None },
{
    let n = sizes.len();
    let mut best: Option<(String, u64)> = None;
    let mut i: usize = 0;
    while i < n
        invariant
            n == sizes@.len(),
            i <= n,
            sizes_ok(sizes@),
            match best_photo(sizes@.take(i as int)) {
                Some((u, sc)) => best matches Some((bu, bs)) && bu == u && bs as int == sc,
                None => best is None,
            },
        decreases n - i,
    {
        let s = &sizes[i];
        proof {
            assert(sizes@.take(i + 1).drop_last() == sizes@.take(i as int));
            assert(sizes@.take(i + 1).last() == sizes@[i as int]);
        }
        match &s.url {
            None => {},
            Some(u) => {
                let w: u64 = match s.width { Some(w) => w as u64, None => 0 };
                let h: u64 = match s.height { Some(h) => h as u64, None => 0 };
                assert(w * h == size_score(sizes@[i as int]));
                assert(w * h <= u32::MAX);
                let score = w * h;
                let replace = match &best {
                    Some((_, bs)) => score >= *bs,
                    None => true,
                };
                if replace {
                    best = Some((u.clone(), score));
                }
            },
        }
        i = i + 1;
    }
    assert(sizes@.take(n as int) == sizes@);
    match best {
        Some((u, _)) => Some(u),
        None => None,
    }
}

fn best_sticker_url(imgs: &Vec<StickerImage>) -> (r: Option<String>)
    ensures
        r == match best_sticker(imgs@) { Some((u, _)) => Some(u), None => None },
{
    let n = imgs.len();
    let mut best: Option<(String, u64)> = None;
    let mut i: usize = 0;
    while i < n
        invariant
            n == imgs@.len(),
            i <= n,
            match best_sticker(imgs@.take(i as int)) {
                Some((u, w)) => best matches Some((bu, bw)) && bu == u && bw as int == w,
                None => best is None,
            },
        decreases n - i,
    {
        let s = &imgs[i];
        proof {
            assert(imgs@.take(i + 1).drop_last() == imgs@.take(i as int));
            assert(imgs@.take(i + 1).last() == imgs@[i as int]);
        }
        match &s.url {
            None => {},
            Some(u) => {
                let w: u64 = match s.width { Some(w) => w, None => 0 };
                let replace = match &best {
                    Some((_, bw)) => w >= *bw,
                    None => true,
                };
                if replace {
                    best = Some((u.clone(), w));
                }
            },
        }
        i = i + 1;
    }
    assert(imgs@.take(n as int) == imgs@);
    match best {
        Some((u, _)) => Some(u),
        None => None,
    }
}

/// `info` is what the client shows for the API attachment `att`.
pub open spec fn maps_attachment(att: Attachment, info: AttachmentInfo) -> bool {
    let t = att.attachment_type@;
    if t == "photo"@ {
        &&& info.kind == AttachmentKind::Photo
        &&& info.title@ == "Photo"@
        &&& info.url == match att.photo {
            Some(p) => match best_photo(p.sizes@) { Some((u, _)) => Some(u), None => None },
            None => None,
        }
        &&& info.size is None && info.subtitle is None
    } else if t == "doc"@ {
        &&& info.kind == AttachmentKind::Doc
        &&& match att.doc {
            Some(d) => {
                &&& info.title@ == match d.title { Some(s) => s@, None => "Document"@ }
                &&& info.url == d.url && info.size == d.size && info.subtitle == d.extension
            },
            None => info.title@ == "Document"@ && info.url is None && info.size is None && info.subtitle is None,
        }
    } else if t == "link"@ {
        &&& info.kind == AttachmentKind::Link
        &&& match att.link {
            Some(l) => {
                &&& info.title@ == match l.title { Some(s) => s@, None => "Link"@ }
                &&& info.url == l.url
            },
            None => info.title@ == "Link"@ && info.url is None,
        }
        &&& info.size is None && info.subtitle is None
    } else if t == "audio"@ {
        let artist = match att.audio { Some(a) => match a.artist { Some(s) => s@, None => seq![] }, None => seq![] };
        let title = match att.audio { Some(a) => match a.title { Some(s) => s@, None => "Audio"@ }, None => "Audio"@ };
        &&& info.kind == AttachmentKind::Audio
        &&& info.title@ == if artist.len() == 0 { title } else { artist + " — "@ + title }
        &&& info.url is None && info.size is None && info.subtitle is None
    } else if t == "sticker"@ {
        &&& info.kind == AttachmentKind::Sticker
        &&& info.title@ == "Sticker"@
        &&& info.url == match att.sticker_images {
            Some(imgs) => match best_sticker(imgs@) { Some((u, _)) => Some(u), None => None },
            None => None,
        }
        &&& info.size is None && info.subtitle is None
    } else {
        &&& info.kind matches AttachmentKind::Other(k) && k@ == t
        &&& info.title@ == t
        &&& info.url is None && info.size is None && info.subtitle is None
    }
}

/// Summarises an API attachment for display.
pub fn map_attachment(att: &Attachment) -> (r: AttachmentInfo)
    requires
        attachment_ok(*att),
    ensures
        maps_attachment(*att, r),
{
    let t = chars_of(att.attachment_type.as_str());
    if chars_eq(t.as_slice(), chars_of("photo").as_slice()) {
        let url = match &att.photo {
            Some(p) => best_photo_url(&p.sizes),
            None => None,
        };
        return AttachmentInfo { kind: AttachmentKind::Photo, title: string_of("Photo"), url, size: None, subtitle: None };
    }
    if chars_eq(t.as_slice(), chars_of("doc").as_slice()) {
        return match &att.doc {
            Some(d) => AttachmentInfo {
                kind: AttachmentKind::Doc,
                title: match &d.title { Some(s) => s.clone(), None => string_of("Document") },
                url: clone_opt_string(&d.url),
                size: d.size,
                subtitle: clone_opt_string(&d.extension),
            },
            None => AttachmentInfo { kind: AttachmentKind::Doc, title: string_of("Document"), url: None, size: None, subtitle: None },
        };
    }
    if chars_eq(t.as_slice(), chars_of("link").as_slice()) {
        return match &att.link {
            Some(l) => AttachmentInfo {
                kind: AttachmentKind::Link,
                title: match &l.title { Some(s) => s.clone(), None => string_of("Link") },
                url: clone_opt_string(&l.url),
                size: None,
                subtitle: None,
            },
            None => AttachmentInfo { kind: AttachmentKind::Link, title: string_of("Link"), url: None, size: None, subtitle: None },
        };
    }
    if chars_eq(t.as_slice(), chars_of("audio").as_slice()) {
        let artist = match &att.audio {
            Some(a) => match &a.artist { Some(s) => s.clone(), None => String::new() },
            None => String::new(),
        };
        let title = match &att.audio {
            Some(a) => match &a.title { Some(s) => s.clone(), None => string_of("Audio") },
            None => string_of("Audio"),
        };
        let full = if chars_of(artist.as_str()).len() == 0 {
            title
        } else {
            let mut f = artist;
            push_str(&mut f, " — ");
            push_str(&mut f, title.as_str());
            f
        };
        return AttachmentInfo { kind: AttachmentKind::Audio, title: full, url: None, size: None, subtitle: None };
    }
    if chars_eq(t.as_slice(), chars_of("sticker").as_slice()) {
        let url = match &att.sticker_images {
            Some(imgs) => best_sticker_url(imgs),
            None => None,
        };
        return AttachmentInfo { kind: AttachmentKind::Sticker, title: string_of("Sticker"), url, size: None, subtitle: None };
    }
    AttachmentInfo {
        kind: AttachmentKind::Other(att.attachment_type.clone()),
        title: att.attachment_type.clone(),
        url: None,
        size: None,
        subtitle: None,
    }
}

/// All attachments of a list are fine to map.
pub open spec fn attachments_ok(atts: Seq<Attachment>) -> bool {
    forall|i: int| 0 <= i < atts.len() ==> attachment_ok(#[trigger] atts[i])
}

/// `infos` maps `atts` element by element.
pub open spec fn maps_attachments(atts: Seq<Attachment>, infos: Seq<AttachmentInfo>) -> bool {
    infos.len() == atts.len() && forall|i: int| 0 <= i < atts.len() ==> maps_attachment(#[trigger] atts[i], infos[i])
}

/// Maps every attachment of a message.
pub fn map_attachments(atts: &Vec<Attachment>) -> (r: Vec<AttachmentInfo>)
    requires
        attachments_ok(atts@),
    ensures
        maps_attachments(atts@, r@),
{
    let n = atts.len();
    let mut out: Vec<AttachmentInfo> = Vec::new();
    let mut i: usize = 0;
    while i < n
        invariant
            n == atts@.len(),
            i <= n,
            attachments_ok(atts@),
            out@.len() == i,
            forall|k: int| 0 <= k < i ==> maps_attachment(#[trigger] atts@[k], out@[k]),
        decreases n - i,
    {
        out.push(map_attachment(&atts[i]));
        i = i + 1;
    }
    out
}

/// Text shown for a message: its text, or "[attachment]" when empty.
pub open spec fn shown_text(text: Seq<char>) -> Seq<char> {
    if text.len() == 0 { "[attachment]"@ } else { text }
}

fn shown_text_of(text: &String) -> (r: String)
    ensures
        r@ == shown_text(text@),
{
    if chars_of(text.as_str()).len() == 0 {
        string_of("[attachment]")
    } else {
        text.clone()
    }
}

/// A message, its forwards and its reply can all be mapped.
pub open spec fn message_ok(profiles: Seq<User>, m: Message) -> bool
    decreases m,
{
    &&& name_lookup_ok(profiles, m.from_id)
    &&& attachments_ok(m.attachments@)
    &&& forall|i: int| 0 <= i < m.fwd_messages@.len() ==> message_ok(profiles, #[trigger] m.fwd_messages@[i])
}

/// `p` previews the replied-to message `r`.
pub open spec fn maps_reply(profiles: Seq<User>, r: Message, p: ReplyPreview) -> bool {
    &&& p.from@ == display_name(profiles, r.from_id)
    &&& p.text@ == shown_text(r.text@)
    &&& maps_attachments(r.attachments@, p.attachments@)
}

/// Preview of a replied-to message.
pub fn map_reply(profiles: &[User], r: &Message) -> (p: ReplyPreview)
    requires
        name_lookup_ok(profiles@, r.from_id),
        attachments_ok(r.attachments@),
    ensures
        maps_reply(profiles@, *r, p),
{
    ReplyPreview {
        from: get_name(profiles, r.from_id),
        text: shown_text_of(&r.text),
        attachments: map_attachments(&r.attachments),
    }
}

/// `f` is the forward tree of message `m`.
pub open spec fn maps_forward(profiles: Seq<User>, m: Message, f: ForwardItem) -> bool
    decreases m,
{
    &&& f.from@ == display_name(profiles, m.from_id)
    &&& f.text@ == shown_text(m.text@)
    &&& maps_attachments(m.attachments@, f.attachments@)
    &&& f.nested@.len() == m.fwd_messages@.len()
    &&& forall|i: int| 0 <= i < m.fwd_messages@.len() ==> maps_forward(profiles, #[trigger] m.fwd_messages@[i], f.nested@[i])
}

/// Converts a forwarded message and everything forwarded inside it.
pub fn map_forward_tree(profiles: &[User], m: &Message) -> (f: ForwardItem)
    requires
        message_ok(profiles@, *m),
    ensures
        maps_forward(profiles@, *m, f),
    decreases m,
{
    let attachments = map_attachments(&m.attachments);
    let n = m.fwd_messages.len();
    let mut nested: Vec<ForwardItem> = Vec::new();
    let mut i: usize = 0;
    while i < n
        invariant
            n == m.fwd_messages@.len(),
            i <= n,
            message_ok(profiles@, *m),
            nested@.len() == i,
            forall|k: int| 0 <= k < i ==> maps_forward(profiles@, #[trigger] m.fwd_messages@[k], nested@[k]),
        decreases n - i,
    {
        assert(message_ok(profiles@, m.fwd_messages@[i as int]));
        nested.push(map_forward_tree(profiles, &m.fwd_messages[i]));
        i = i + 1;
    }
    ForwardItem {
        from: get_name(profiles, m.from_id),
        text: shown_text_of(&m.text),
        attachments,
        nested,
    }
}

/// The replied-to message of `m`, if any, can be previewed.
pub open spec fn reply_ok(profiles: Seq<User>, m: Message) -> bool {
    m.reply_message matches Some(r) ==> name_lookup_ok(profiles, r.from_id) && attachments_ok(r.attachments@)
}

/// `c` is the chat-view message for the history message `m`, given the id
/// of the last outgoing message the peer has read.
pub open spec fn maps_history(profiles: Seq<User>, m: Message, out_read: i64, c: ChatMessage) -> bool {
    let outgoing = m.out == Some(1i32);
    &&& c.id == m.id && c.cmid == m.conversation_message_id && c.from_id == m.from_id
    &&& c.from_name@ == display_name(profiles, m.from_id)
    &&& c.text@ == shown_text(m.text@)
    &&& c.timestamp == m.date
    &&& c.is_outgoing == outgoing
    &&& c.is_read == if outgoing { m.id <= out_read } else { m.read_state == Some(1i32) }
    &&& c.is_edited == m.update_time is Some
    &&& !c.is_pinned
    &&& c.delivery == DeliveryStatus::Sent
    &&& maps_attachments(m.attachments@, c.attachments@)
    &&& match m.reply_message {
        Some(r) => c.reply matches Some(p) && maps_reply(profiles, *r, p),
        None => c.reply is None,
    }
    &&& c.forwards@.len() == m.fwd_messages@.len()
    &&& forall|i: int| 0 <= i < m.fwd_messages@.len() ==> maps_forward(profiles, #[trigger] m.fwd_messages@[i], c.forwards@[i])
    &&& c.fwd_count == m.fwd_messages@.len()
}

/// Maps every forwarded message of `m`.
fn map_forwards(profiles: &[User], m: &Message) -> (r: Vec<ForwardItem>)
    requires
        message_ok(profiles@, *m),
    ensures
        r@.len() == m.fwd_messages@.len(),
        forall|i: int| 0 <= i < m.fwd_messages@.len() ==> maps_forward(profiles@, #[trigger] m.fwd_messages@[i], r@[i]),
{
    let n = m.fwd_messages.len();
    let mut out: Vec<ForwardItem> = Vec::new();
    let mut i: usize = 0;
    while i < n
        invariant
            n == m.fwd_messages@.len(),
            i <= n,
            message_ok(profiles@, *m),
            out@.len() == i,
            forall|k: int| 0 <= k < i ==> maps_forward(profiles@, #[trigger] m.fwd_messages@[k], out@[k]),
        decreases n - i,
    {
        assert(message_ok(profiles@, m.fwd_messages@[i as int]));
        out.push(map_forward_tree(profiles, &m.fwd_messages[i]));
        i = i + 1;
    }
    out
}

/// Converts a history message into the chat view's message.
pub fn map_history_message(profiles: &[User], msg: &Message, out_read: i64) -> (c: ChatMessage)
    requires
        message_ok(profiles@, *msg),
        reply_ok(profiles@, *msg),
    ensures
        maps_history(profiles@, *msg, out_read, c),
{
    let from_name = get_name(profiles, msg.from_id);
    let is_outgoing = msg.is_outgoing();
    let is_read = if is_outgoing {
        msg.id <= out_read
    } else {
        msg.is_read()
    };
    let reply = match &msg.reply_message {
        Some(r) => Some(map_reply(profiles, r)),
        None => None,
    };
    let forwards = map_forwards(profiles, msg);
    let fwd_count = forwards.len();
    ChatMessage {
        id: msg.id,
        cmid: msg.conversation_message_id,
        from_id: msg.from_id,
        from_name,
        text: shown_text_of(&msg.text),
        timestamp: msg.date,
        is_outgoing,
        is_read,
        is_edited: msg.update_time.is_some(),
        is_pinned: false,
        delivery: DeliveryStatus::Sent,
        attachments: map_attachments(&msg.attachments),
        reply,
        fwd_count,
        forwards,
    }
}

/// The chat view marks a message as outgoing exactly when the API says
/// `out == 1`. An incoming message shows as read exactly when its
/// `read_state` is 1, whatever the peer has read, so an unread one
/// (`read_state` 0 or missing) shows as unread; an outgoing one shows as
/// read exactly when the peer has read up to its id.
pub proof fn lemma_history_read_flags(profiles: Seq<User>, m: Message, out_read: i64, c: ChatMessage)
    requires
        maps_history(profiles, m, out_read, c),
    ensures
        c.is_outgoing <==> m.out == Some(1i32),
        m.out != Some(1i32) ==> (c.is_read <==> m.read_state == Some(1i32)),
        m.out != Some(1i32) && m.read_state != Some(1i32) ==> !c.is_read,
        m.out == Some(1i32) ==> (c.is_read <==> m.id <= out_read),
{
}

/// For an incoming message the read flag does not depend on how far the
/// peer has read the outgoing messages.
pub proof fn lemma_incoming_read_ignores_peer(profiles: Seq<User>, m: Message, r1: i64, c1: ChatMessage, r2: i64, c2: ChatMessage)
    requires
        m.out != Some(1i32),
        maps_history(profiles, m, r1, c1),
        maps_history(profiles, m, r2, c2),
    ensures
        c1.is_read == c2.is_read,
        !c1.is_outgoing && !c2.is_outgoing,
{
}

/// Title of a conversation in the terminal client: the group chat's title,
/// a user's full name, "Group N" for a community, else "Chat N".
pub open spec fn conversation_title(item: ConversationItem, profiles: Seq<User>) -> Seq<char> {
    let peer = item.conversation.peer.id;
    match item.conversation.chat_settings {
        Some(s) => s.title@,
        None => if peer > 0 && find_user(profiles, peer) is Some {
            full_name_of(find_user(profiles, peer)->0)
        } else if peer < 0 {
            "Group "@ + decimal(-(peer as int))
        } else {
            "Chat "@ + decimal(peer as int)
        },
    }
}

/// Title of a conversation from the chat settings or the response profiles.
pub fn get_conversation_title(item: &ConversationItem, profiles: &[User]) -> (r: String)
    requires
        item.conversation.peer.id != i64::MIN,
    ensures
        r@ == conversation_title(*item, profiles@),
{
    match &item.conversation.chat_settings {
        Some(settings) => {
            return settings.title.clone();
        },
        None => {},
    }
    let peer_id = item.conversation.peer.id;
    if peer_id > 0 {
        match find_user_index(profiles, peer_id) {
            Some(i) => {
                return profiles[i].full_name();
            },
            None => {},
        }
    }
    if peer_id < 0 {
        let mut out = string_of("Group ");
        push_i64(&mut out, -peer_id);
        return out;
    }
    let mut out = string_of("Chat ");
    push_i64(&mut out, peer_id);
    out
}

/// Whether a user peer is online according to the response profiles
/// (communities and chats never are).
pub fn get_user_online(peer_id: &i64, profiles: &[User]) -> (r: bool)
    ensures
        r == (*peer_id > 0 && (find_user(profiles@, *peer_id) matches Some(u) && u.online == Some(1i32))),
{
    if *peer_id > 0 {
        match find_user_index(profiles, *peer_id) {
            Some(i) => profiles[i].is_online(),
            None => false,
        }
    } else {
        false
    }
}

/// Whether every photo size's area fits in a `u32`.
pub fn sizes_fit(sizes: &Vec<PhotoSize>) -> (r: bool)
    ensures
        r == sizes_ok(sizes@),
{
    let n = sizes.len();
    let mut i: usize = 0;
    while i < n
        invariant
            n == sizes@.len(),
            i <= n,
            forall|k: int| 0 <= k < i && (#[trigger] sizes@[k]).url is Some ==> size_score(sizes@[k]) <= u32::MAX,
        decreases n - i,
    {
        let s = &sizes[i];
        if s.url.is_some() {
            let w: u64 = match s.width { Some(w) => w as u64, None => 0 };
            let h: u64 = match s.height { Some(h) => h as u64, None => 0 };
            assert(w * h <= u64::MAX) by (nonlinear_arith)
                requires w <= u32::MAX, h <= u32::MAX;
            if w * h > u32::MAX as u64 {
                return false;
            }
        }
        i = i + 1;
    }
    true
}

/// Whether every attachment can be converted.
pub fn attachments_fit(atts: &Vec<Attachment>) -> (r: bool)
    ensures
        r == attachments_ok(atts@),
{
    let n = atts.len();
    let mut i: usize = 0;
    while i < n
        invariant
            n == atts@.len(),
            i <= n,
            forall|k: int| 0 <= k < i ==> attachment_ok(#[trigger] atts@[k]),
        decreases n - i,
    {
        let a = &atts[i];
        if chars_eq(chars_of(a.attachment_type.as_str()).as_slice(), chars_of("photo").as_slice()) {
            match &a.photo {
                Some(p) => {
                    if !sizes_fit(&p.sizes) {
                        return false;
                    }
                },
                None => {},
            }
        }
        i = i + 1;
    }
    true
}

/// Whether a sender's name can be looked up in `profiles`.
pub fn name_fits(profiles: &[User], id: i64) -> (r: bool)
    ensures
        r == name_lookup_ok(profiles@, id),
{
    find_user_index(profiles, id).is_some() || id != i64::MIN
}

/// Whether a message and everything forwarded in it can be converted.
pub fn message_fits(profiles: &[User], m: &Message) -> (r: bool)
    ensures
        r == message_ok(profiles@, *m),
    decreases m,
{
    if !name_fits(profiles, m.from_id) || !attachments_fit(&m.attachments) {
        return false;
    }
    let n = m.fwd_messages.len();
    let mut i: usize = 0;
    while i < n
        invariant
            n == m.fwd_messages@.len(),
            i <= n,
            name_lookup_ok(profiles@, m.from_id),
            attachments_ok(m.attachments@),
            forall|k: int| 0 <= k < i ==> message_ok(profiles@, #[trigger] m.fwd_messages@[k]),
        decreases n - i,
    {
        if !message_fits(profiles, &m.fwd_messages[i]) {
            return false;
        }
        i = i + 1;
    }
    true
}

/// Whether a message's reply preview can be made.
pub fn reply_fits(profiles: &[User], m: &Message) -> (r: bool)
    ensures
        r == reply_ok(profiles@, *m),
{
    match &m.reply_message {
        Some(rm) => name_fits(profiles, rm.from_id) && attachments_fit(&rm.attachments),
        None => true,
    }
}

} // verus!
