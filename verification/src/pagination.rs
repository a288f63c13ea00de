//! Pagination state for the chat list and for a chat's messages.

use vstd::prelude::*;

verus! {

/// Pagination state for messages in a specific chat.
#[derive(Debug, Clone, Copy, PartialEq, Eq, Structural)]
pub struct MessagesPagination {
    pub peer_id: i64,
    pub offset: u32,
    pub total_count: Option<u32>,
    pub is_loading: bool,
    pub has_more: bool,
    /// First (oldest loaded) conversation_message_id.
    pub first_cmid: Option<i64>,
    /// Last (newest loaded) conversation_message_id.
    pub last_cmid: Option<i64>,
}

impl MessagesPagination {
    /// Fresh pagination for a chat: nothing loaded yet, more assumed.
    pub fn new(peer_id: i64) -> (r: Self)
        ensures
            r == (MessagesPagination {
                peer_id,
                offset: 0,
                total_count: None,
                is_loading: false,
                has_more: true,
                first_cmid: None,
                last_cmid: None,
            }),
    {
        MessagesPagination {
            peer_id,
            offset: 0,
            total_count: None,
            is_loading: false,
            has_more: true,
            first_cmid: None,
            last_cmid: None,
        }
    }
}

/// Pagination state for the chat list.
#[derive(Debug, Clone, Copy, PartialEq, Eq, Structural)]
pub struct ChatsPagination {
    pub offset: u32,
    pub total_count: Option<u32>,
    pub is_loading: bool,
    pub has_more: bool,
}

impl Default for ChatsPagination {
    /// Nothing loaded, not loading, no more pages known.
    fn default() -> (r: Self)
        ensures
            r == (ChatsPagination { offset: 0, total_count: None, is_loading: false, has_more: false }),
    {
        ChatsPagination { offset: 0, total_count: None, is_loading: false, has_more: false }
    }
}

} // verus!
