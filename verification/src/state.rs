use vstd::prelude::*;

use crate::address::Address;

verus! {

/// Longest comment or reply message accepted, in UTF-8 bytes.
pub const MAX_COMMENT_LENGTH: usize = 444;

/// Longest user name accepted, in UTF-8 bytes.
pub const MAX_USER_NAME_LENGTH: usize = 144;

/// The length in bytes of the UTF-8 encoding of `text`.
pub open spec fn byte_len(text: Seq<char>) -> nat {
    vstd::utf8::encode_utf8(text).len()
}

/// The length in bytes of `text`, which is at most `usize::MAX`.
pub fn text_byte_len(text: &String) -> (n: usize)
    ensures
        n == byte_len(text@),
{
    text.as_str().as_bytes().len()
}

/// The per-user account: how many posts the user made and the display name.
#[derive(Clone, Debug)]
pub struct ChatAccount {
    pub post_count: u32,
    pub user_name: String,
    pub use_custom_name: bool,
}

/// The contents of a [`ChatAccount`], with the name as characters.
pub struct ChatAccountView {
    pub post_count: u32,
    pub user_name: Seq<char>,
    pub use_custom_name: bool,
}

impl View for ChatAccount {
    type V = ChatAccountView;

    open spec fn view(&self) -> ChatAccountView {
        ChatAccountView {
            post_count: self.post_count,
            user_name: self.user_name@,
            use_custom_name: self.use_custom_name,
        }
    }
}

impl ChatAccountView {
    /// A freshly created account: no posts, no name, name not in use.
    pub open spec fn initial() -> ChatAccountView {
        ChatAccountView { post_count: 0, user_name: Seq::empty(), use_custom_name: false }
    }
}

impl ChatAccount {
    /// A freshly created account.
    pub fn new() -> (a: ChatAccount)
        ensures
            a@ == ChatAccountView::initial(),
    {
        ChatAccount { post_count: 0, user_name: String::new(), use_custom_name: false }
    }
}

/// The per-section counters. The post counter numbers every comment and reply
/// of the section; the others count the edits, deletions, votes, stars and
/// features made in it.
#[derive(Clone, Copy, Debug, PartialEq, Eq, Structural)]
pub struct CommentSection {
    pub post_count: u32,
    pub post_edited_count: u32,
    pub post_deleted_count: u32,
    pub post_voted_count: u32,
    pub post_starred_count: u32,
    pub post_fed_count: u32,
}

impl CommentSection {
    /// A freshly created section: every counter at zero.
    pub open spec fn initial() -> CommentSection {
        CommentSection {
            post_count: 0,
            post_edited_count: 0,
            post_deleted_count: 0,
            post_voted_count: 0,
            post_starred_count: 0,
            post_fed_count: 0,
        }
    }

    /// A freshly created section.
    pub fn new() -> (s: CommentSection)
        ensures
            s == CommentSection::initial(),
    {
        CommentSection {
            post_count: 0,
            post_edited_count: 0,
            post_deleted_count: 0,
            post_voted_count: 0,
            post_starred_count: 0,
            post_fed_count: 0,
        }
    }
}

/// A comment, or a reply to one (then `parent_id` is the comment's id).
#[derive(Clone, Debug)]
pub struct Comment {
    pub id: u32,
    pub parent_id: u32,
    pub user_post_count_index: u32,
    pub post_owner_address: Address,
    pub votes: i64,
    pub unix_creation_time_stamp: u64,
    pub msg: String,
    pub reply_count: u32,
    pub is_edited: bool,
    pub is_deleted: bool,
    pub is_starred: bool,
    pub is_fed: bool,
}

/// The contents of a [`Comment`], with the message as characters.
pub struct CommentView {
    pub id: u32,
    pub parent_id: u32,
    pub user_post_count_index: u32,
    pub post_owner_address: Address,
    pub votes: i64,
    pub unix_creation_time_stamp: u64,
    pub msg: Seq<char>,
    pub reply_count: u32,
    pub is_edited: bool,
    pub is_deleted: bool,
    pub is_starred: bool,
    pub is_fed: bool,
}

impl View for Comment {
    type V = CommentView;

    open spec fn view(&self) -> CommentView {
        CommentView {
            id: self.id,
            parent_id: self.parent_id,
            user_post_count_index: self.user_post_count_index,
            post_owner_address: self.post_owner_address,
            votes: self.votes,
            unix_creation_time_stamp: self.unix_creation_time_stamp,
            msg: self.msg@,
            reply_count: self.reply_count,
            is_edited: self.is_edited,
            is_deleted: self.is_deleted,
            is_starred: self.is_starred,
            is_fed: self.is_fed,
        }
    }
}

} // verus!
