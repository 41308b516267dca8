//! Verified core of an on-chain chat board: user accounts with display names,
//! comment sections, comments and replies, votes, and moderation flags.
//!
//! Each instruction is a function from the accounts it touches (and its
//! arguments) to a new state of those accounts or an error. A failed
//! instruction leaves every account as it was.

pub mod address;
pub mod errors;
pub mod state;
pub mod instructions;
pub mod laws;
pub mod outcomes;

pub use address::{ceo_address, Address};
pub use errors::{AuthorizationError, ChatError, InvalidLengthError, InvalidOperationError};
pub use instructions::{
    create_chat_account, create_comment_section, delete_comment, edit_comment, fed_comment,
    post_comment, post_reply, set_user_name, set_user_name_flag, star_comment, vote_comment,
    CreateChatAccount, CreateCommentSection, DeleteComment, EditComment, FEDComment, PostComment,
    PostReply, SetUserName, SetUserNameFlag, StarComment, VoteComment,
};
pub use state::{
    text_byte_len, ChatAccount, Comment, CommentSection, MAX_COMMENT_LENGTH, MAX_USER_NAME_LENGTH,
};

