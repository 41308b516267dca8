use vstd::prelude::*;

use crate::address::{ceo, ceo_address, Address};
use crate::errors::{AuthorizationError, ChatError, InvalidLengthError, InvalidOperationError};
use crate::state::{
    byte_len, text_byte_len, ChatAccount, ChatAccountView, Comment, CommentSection, CommentView,
    MAX_COMMENT_LENGTH, MAX_USER_NAME_LENGTH,
};

verus! {

// ---------------------------------------------------------------------------
// The accounts each instruction works on.
// ---------------------------------------------------------------------------

/// Accounts of `create_chat_account`: the signer's new chat account.
pub struct CreateChatAccount {
    pub chat_account: ChatAccount,
    pub signer: Address,
}

/// Accounts of `set_user_name`: the signer's chat account.
pub struct SetUserName {
    pub chat_account: ChatAccount,
    pub signer: Address,
}

/// Accounts of `set_user_name_flag`: the signer's chat account.
pub struct SetUserNameFlag {
    pub chat_account: ChatAccount,
    pub signer: Address,
}

/// Accounts of `create_comment_section`: the new section.
pub struct CreateCommentSection {
    pub comment_section: CommentSection,
    pub signer: Address,
}

/// Accounts of `post_comment`: the author's chat account, the section, and the
/// new comment.
pub struct PostComment {
    pub chat_account: ChatAccount,
    pub comment_section: CommentSection,
    pub comment: Comment,
    pub signer: Address,
}

/// Accounts of `post_reply`: the author's chat account, the section, the
/// comment replied to, and the new reply.
pub struct PostReply {
    pub chat_account: ChatAccount,
    pub comment_section: CommentSection,
    pub comment: Comment,
    pub reply: Comment,
    pub signer: Address,
}

/// Accounts of `edit_comment`: the section and the signer's comment.
pub struct EditComment {
    pub comment_section: CommentSection,
    pub comment: Comment,
    pub signer: Address,
}

/// Accounts of `delete_comment`: the section and the signer's comment.
pub struct DeleteComment {
    pub comment_section: CommentSection,
    pub comment: Comment,
    pub signer: Address,
}

/// Accounts of `vote_comment`: the voter's chat account, the section, and the
/// comment voted on.
pub struct VoteComment {
    pub chat_account: ChatAccount,
    pub comment_section: CommentSection,
    pub comment: Comment,
    pub signer: Address,
}

/// Accounts of `star_comment`: the section and the comment starred.
pub struct StarComment {
    pub comment_section: CommentSection,
    pub comment: Comment,
    pub signer: Address,
}

/// Accounts of `fed_comment`: the section and the comment featured.
pub struct FEDComment {
    pub comment_section: CommentSection,
    pub comment: Comment,
    pub signer: Address,
}

// ---------------------------------------------------------------------------
// Their contents.
// ---------------------------------------------------------------------------

/// A signer and their chat account.
pub struct UserView {
    pub chat_account: ChatAccountView,
    pub signer: Address,
}

/// A signer and a section.
pub struct SectionView {
    pub comment_section: CommentSection,
    pub signer: Address,
}

/// A signer, their chat account, a section and a comment in it.
pub struct PostView {
    pub chat_account: ChatAccountView,
    pub comment_section: CommentSection,
    pub comment: CommentView,
    pub signer: Address,
}

/// A signer, their chat account, a section, a comment in it and a reply to it.
pub struct ReplyView {
    pub chat_account: ChatAccountView,
    pub comment_section: CommentSection,
    pub comment: CommentView,
    pub reply: CommentView,
    pub signer: Address,
}

/// A signer, a section and a comment in it.
pub struct ModerationView {
    pub comment_section: CommentSection,
    pub comment: CommentView,
    pub signer: Address,
}

impl View for CreateChatAccount {
    type V = UserView;

    open spec fn view(&self) -> UserView {
        UserView { chat_account: self.chat_account@, signer: self.signer }
    }
}

impl View for SetUserName {
    type V = UserView;

    open spec fn view(&self) -> UserView {
        UserView { chat_account: self.chat_account@, signer: self.signer }
    }
}

impl View for SetUserNameFlag {
    type V = UserView;

    open spec fn view(&self) -> UserView {
        UserView { chat_account: self.chat_account@, signer: self.signer }
    }
}

impl View for CreateCommentSection {
    type V = SectionView;

    open spec fn view(&self) -> SectionView {
        SectionView { comment_section: self.comment_section, signer: self.signer }
    }
}

impl View for PostComment {
    type V = PostView;

    open spec fn view(&self) -> PostView {
        PostView {
            chat_account: self.chat_account@,
            comment_section: self.comment_section,
            comment: self.comment@,
            signer: self.signer,
        }
    }
}

impl View for VoteComment {
    type V = PostView;

    open spec fn view(&self) -> PostView {
        PostView {
            chat_account: self.chat_account@,
            comment_section: self.comment_section,
            comment: self.comment@,
            signer: self.signer,
        }
    }
}

impl View for PostReply {
    type V = ReplyView;

    open spec fn view(&self) -> ReplyView {
        ReplyView {
            chat_account: self.chat_account@,
            comment_section: self.comment_section,
            comment: self.comment@,
            reply: self.reply@,
            signer: self.signer,
        }
    }
}

impl View for EditComment {
    type V = ModerationView;

    open spec fn view(&self) -> ModerationView {
        ModerationView { comment_section: self.comment_section, comment: self.comment@, signer: self.signer }
    }
}

impl View for DeleteComment {
    type V = ModerationView;

    open spec fn view(&self) -> ModerationView {
        ModerationView { comment_section: self.comment_section, comment: self.comment@, signer: self.signer }
    }
}

impl View for StarComment {
    type V = ModerationView;

    open spec fn view(&self) -> ModerationView {
        ModerationView { comment_section: self.comment_section, comment: self.comment@, signer: self.signer }
    }
}

impl View for FEDComment {
    type V = ModerationView;

    open spec fn view(&self) -> ModerationView {
        ModerationView { comment_section: self.comment_section, comment: self.comment@, signer: self.signer }
    }
}

// ---------------------------------------------------------------------------
// What each instruction does, as a step from the accounts before it to the
// accounts after it, or to the error it fails with.
// ---------------------------------------------------------------------------

/// An instruction that returned `r`, and took its accounts from `pre` to
/// `post`, did what `step` says: on success the accounts hold the new state,
/// on failure the error is the one named and the accounts are as before.
pub open spec fn performs<V>(r: Result<(), ChatError>, pre: V, post: V, step: Result<V, ChatError>) -> bool {
    match step {
        Ok(next) => r is Ok && post == next,
        Err(e) => r == Err::<(), ChatError>(e) && post == pre,
    }
}

/// The error for a message over the length limit.
pub open spec fn message_too_long() -> ChatError {
    ChatError::InvalidLength(InvalidLengthError::MSGTooLong)
}

/// The error for a user name over the length limit.
pub open spec fn user_name_too_long() -> ChatError {
    ChatError::InvalidLength(InvalidLengthError::UserNameTooLong)
}

/// The error for a signer that is not the operator.
pub open spec fn not_ceo() -> ChatError {
    ChatError::Authorization(AuthorizationError::NotCEO)
}

/// The error for a signer that does not own the post.
pub open spec fn not_post_owner() -> ChatError {
    ChatError::Authorization(AuthorizationError::NotPostOwner)
}

/// The error for a vote on a deleted post.
pub open spec fn post_deleted() -> ChatError {
    ChatError::InvalidOperation(InvalidOperationError::Deleted)
}

/// The error for setting a flag to the value it already has.
pub open spec fn flag_same_state() -> ChatError {
    ChatError::InvalidOperation(InvalidOperationError::FlagSameState)
}

/// Creating a chat account gives the signer an account with no posts and no name.
pub open spec fn create_chat_account_step(pre: UserView) -> Result<UserView, ChatError> {
    Ok(UserView { chat_account: ChatAccountView::initial(), signer: pre.signer })
}

/// Setting a user name of at most `MAX_USER_NAME_LENGTH` bytes stores it and
/// turns its use on; a longer one is refused.
pub open spec fn set_user_name_step(pre: UserView, user_name: Seq<char>) -> Result<UserView, ChatError> {
    if byte_len(user_name) <= MAX_USER_NAME_LENGTH {
        Ok(UserView {
            chat_account: ChatAccountView {
                user_name: user_name,
                use_custom_name: true,
                ..pre.chat_account
            },
            ..pre
        })
    } else {
        Err(user_name_too_long())
    }
}

/// Setting the use of the custom name to a new value stores it; setting it to
/// the value it has is refused.
pub open spec fn set_user_name_flag_step(pre: UserView, is_enabled: bool) -> Result<UserView, ChatError> {
    if pre.chat_account.use_custom_name != is_enabled {
        Ok(UserView { chat_account: ChatAccountView { use_custom_name: is_enabled, ..pre.chat_account }, ..pre })
    } else {
        Err(flag_same_state())
    }
}

/// Creating a comment section gives a section with every counter at zero.
pub open spec fn create_comment_section_step(pre: SectionView) -> Result<SectionView, ChatError> {
    Ok(SectionView { comment_section: CommentSection::initial(), signer: pre.signer })
}

/// A post as it is stored in its new account: numbered `id`, under the
/// author's index `user_post_count_index`, linked to `parent_id` (0 for a
/// comment), with no votes, no replies and every mark off.
pub open spec fn new_post(
    id: u32,
    parent_id: u32,
    user_post_count_index: u32,
    author: Address,
    unix_timestamp: i64,
    message: Seq<char>,
) -> CommentView {
    CommentView {
        id: id,
        parent_id: parent_id,
        user_post_count_index: user_post_count_index,
        post_owner_address: author,
        votes: 0,
        unix_creation_time_stamp: unix_timestamp as u64,
        msg: message,
        reply_count: 0,
        is_edited: false,
        is_deleted: false,
        is_starred: false,
        is_fed: false,
    }
}

/// Posting a comment of at most `MAX_COMMENT_LENGTH` bytes numbers it with the
/// section's next post number, files it under the author's next post index,
/// stores it with author, time and message in the new account, and counts the
/// post in the section and in the author's account. A longer message is
/// refused.
pub open spec fn post_comment_step(pre: PostView, message: Seq<char>, unix_timestamp: i64) -> Result<PostView, ChatError> {
    if byte_len(message) <= MAX_COMMENT_LENGTH {
        let id = (pre.comment_section.post_count + 1) as u32;
        Ok(PostView {
            chat_account: ChatAccountView {
                post_count: (pre.chat_account.post_count + 1) as u32,
                ..pre.chat_account
            },
            comment_section: CommentSection { post_count: id, ..pre.comment_section },
            comment: new_post(id, 0, pre.chat_account.post_count, pre.signer, unix_timestamp, message),
            signer: pre.signer,
        })
    } else {
        Err(message_too_long())
    }
}

/// Replying with a message of at most `MAX_COMMENT_LENGTH` characters (the
/// reply account has room for that many characters of up to four bytes each)
/// numbers the reply with the section's next post number, links it to the
/// comment, files it under the author's next post index, stores it with
/// author, time and message in the new account, and counts it in the section,
/// in the comment's replies and in the author's account. A longer message is
/// refused.
pub open spec fn post_reply_step(pre: ReplyView, message: Seq<char>, unix_timestamp: i64) -> Result<ReplyView, ChatError> {
    if message.len() <= MAX_COMMENT_LENGTH {
        let id = (pre.comment_section.post_count + 1) as u32;
        Ok(ReplyView {
            chat_account: ChatAccountView {
                post_count: (pre.chat_account.post_count + 1) as u32,
                ..pre.chat_account
            },
            comment_section: CommentSection { post_count: id, ..pre.comment_section },
            comment: CommentView { reply_count: (pre.comment.reply_count + 1) as u32, ..pre.comment },
            reply: new_post(id, pre.comment.id, pre.chat_account.post_count, pre.signer, unix_timestamp, message),
            signer: pre.signer,
        })
    } else {
        Err(message_too_long())
    }
}

/// The owner of a comment may replace its message by one of at most
/// `MAX_COMMENT_LENGTH` bytes; the comment is then marked edited and the edit
/// counted in the section. Anyone else is refused first, a longer message next.
pub open spec fn edit_comment_step(pre: ModerationView, message: Seq<char>) -> Result<ModerationView, ChatError> {
    if pre.comment.post_owner_address != pre.signer {
        Err(not_post_owner())
    } else if byte_len(message) > MAX_COMMENT_LENGTH {
        Err(message_too_long())
    } else {
        Ok(ModerationView {
            comment_section: CommentSection {
                post_edited_count: (pre.comment_section.post_edited_count + 1) as u32,
                ..pre.comment_section
            },
            comment: CommentView { msg: message, is_edited: true, ..pre.comment },
            signer: pre.signer,
        })
    }
}

/// The owner of a comment may mark it deleted; the deletion is counted in the
/// section. Anyone else is refused.
pub open spec fn delete_comment_step(pre: ModerationView) -> Result<ModerationView, ChatError> {
    if pre.comment.post_owner_address != pre.signer {
        Err(not_post_owner())
    } else {
        Ok(ModerationView {
            comment_section: CommentSection {
                post_deleted_count: (pre.comment_section.post_deleted_count + 1) as u32,
                ..pre.comment_section
            },
            comment: CommentView { is_deleted: true, ..pre.comment },
            signer: pre.signer,
        })
    }
}

/// A vote on a comment that is not deleted adds one to its votes, or takes
/// one away, and is counted in the section. A vote on a deleted one is refused.
pub open spec fn vote_comment_step(pre: PostView, is_up_vote: bool) -> Result<PostView, ChatError> {
    if pre.comment.is_deleted {
        Err(post_deleted())
    } else {
        Ok(PostView {
            comment: CommentView {
                votes: if is_up_vote { (pre.comment.votes + 1) as i64 } else { (pre.comment.votes - 1) as i64 },
                ..pre.comment
            },
            comment_section: CommentSection {
                post_voted_count: (pre.comment_section.post_voted_count + 1) as u32,
                ..pre.comment_section
            },
            ..pre
        })
    }
}

/// The operator may star or unstar a comment; the change is counted in the
/// section. Anyone else is refused first; a star that is already as asked next.
pub open spec fn star_comment_step(pre: ModerationView, is_star: bool) -> Result<ModerationView, ChatError> {
    if pre.signer != ceo() {
        Err(not_ceo())
    } else if pre.comment.is_starred == is_star {
        Err(flag_same_state())
    } else {
        Ok(ModerationView {
            comment_section: CommentSection {
                post_starred_count: (pre.comment_section.post_starred_count + 1) as u32,
                ..pre.comment_section
            },
            comment: CommentView { is_starred: is_star, ..pre.comment },
            signer: pre.signer,
        })
    }
}

/// The operator may feature or unfeature a comment; the change is counted in
/// the section. Anyone else is refused first; a feature flag that is already as
/// asked next.
pub open spec fn fed_comment_step(pre: ModerationView, is_fed: bool) -> Result<ModerationView, ChatError> {
    if pre.signer != ceo() {
        Err(not_ceo())
    } else if pre.comment.is_fed == is_fed {
        Err(flag_same_state())
    } else {
        Ok(ModerationView {
            comment_section: CommentSection {
                post_fed_count: (pre.comment_section.post_fed_count + 1) as u32,
                ..pre.comment_section
            },
            comment: CommentView { is_fed: is_fed, ..pre.comment },
            signer: pre.signer,
        })
    }
}

// ---------------------------------------------------------------------------
// The instructions.
// ---------------------------------------------------------------------------

/// Sets up the signer's new chat account.
pub fn create_chat_account(ctx: &mut CreateChatAccount) -> (r: Result<(), ChatError>)
    ensures
        performs(r, old(ctx)@, final(ctx)@, create_chat_account_step(old(ctx)@)),
{
    ctx.chat_account = ChatAccount::new();
    Ok(())
}

/// Sets the signer's display name and turns its use on.
pub fn set_user_name(ctx: &mut SetUserName, user_name: String) -> (r: Result<(), ChatError>)
    ensures
        performs(r, old(ctx)@, final(ctx)@, set_user_name_step(old(ctx)@, user_name@)),
{
    if text_byte_len(&user_name) > MAX_USER_NAME_LENGTH {
        return Err(ChatError::InvalidLength(InvalidLengthError::UserNameTooLong));
    }
    ctx.chat_account.user_name = user_name;
    ctx.chat_account.use_custom_name = true;
    Ok(())
}

/// Turns the use of the signer's display name on or off.
pub fn set_user_name_flag(ctx: &mut SetUserNameFlag, is_enabled: bool) -> (r: Result<(), ChatError>)
    ensures
        performs(r, old(ctx)@, final(ctx)@, set_user_name_flag_step(old(ctx)@, is_enabled)),
{
    if ctx.chat_account.use_custom_name == is_enabled {
        return Err(ChatError::InvalidOperation(InvalidOperationError::FlagSameState));
    }
    ctx.chat_account.use_custom_name = is_enabled;
    Ok(())
}

/// Sets up a new comment section; its name only selects the section's address.
pub fn create_comment_section(ctx: &mut CreateCommentSection, comment_section_name: String) -> (r: Result<(), ChatError>)
    ensures
        performs(r, old(ctx)@, final(ctx)@, create_comment_section_step(old(ctx)@)),
{
    ctx.comment_section = CommentSection::new();
    Ok(())
}

/// Posts a comment in a section at the given time; the section's name only
/// selects the accounts.
pub fn post_comment(ctx: &mut PostComment, comment_section_name: String, message: String, unix_timestamp: i64) -> (r: Result<(), ChatError>)
    requires
        byte_len(message@) <= MAX_COMMENT_LENGTH ==> old(ctx).comment_section.post_count < u32::MAX,
        byte_len(message@) <= MAX_COMMENT_LENGTH ==> old(ctx).chat_account.post_count < u32::MAX,
    ensures
        performs(r, old(ctx)@, final(ctx)@, post_comment_step(old(ctx)@, message@, unix_timestamp)),
{
    if text_byte_len(&message) > MAX_COMMENT_LENGTH {
        return Err(ChatError::InvalidLength(InvalidLengthError::MSGTooLong));
    }
    ctx.comment_section.post_count = ctx.comment_section.post_count + 1;
    ctx.comment = Comment {
        id: ctx.comment_section.post_count,
        parent_id: 0,
        user_post_count_index: ctx.chat_account.post_count,
        post_owner_address: ctx.signer,
        votes: 0,
        unix_creation_time_stamp: unix_timestamp as u64,
        msg: message,
        reply_count: 0,
        is_edited: false,
        is_deleted: false,
        is_starred: false,
        is_fed: false,
    };
    ctx.chat_account.post_count = ctx.chat_account.post_count + 1;
    Ok(())
}

/// Posts a reply to a comment at the given time; the section's name, the
/// comment's index and its owner only select the accounts.
pub fn post_reply(
    ctx: &mut PostReply,
    comment_section_name: String,
    user_post_count_index: u32,
    post_owner_address: Address,
    message: String,
    unix_timestamp: i64,
) -> (r: Result<(), ChatError>)
    requires
        message@.len() <= MAX_COMMENT_LENGTH ==> old(ctx).comment_section.post_count < u32::MAX,
        message@.len() <= MAX_COMMENT_LENGTH ==> old(ctx).chat_account.post_count < u32::MAX,
        message@.len() <= MAX_COMMENT_LENGTH ==> old(ctx).comment.reply_count < u32::MAX,
    ensures
        performs(r, old(ctx)@, final(ctx)@, post_reply_step(old(ctx)@, message@, unix_timestamp)),
{
    if message.as_str().unicode_len() > MAX_COMMENT_LENGTH {
        return Err(ChatError::InvalidLength(InvalidLengthError::MSGTooLong));
    }
    ctx.comment_section.post_count = ctx.comment_section.post_count + 1;
    ctx.reply = Comment {
        id: ctx.comment_section.post_count,
        parent_id: ctx.comment.id,
        user_post_count_index: ctx.chat_account.post_count,
        post_owner_address: ctx.signer,
        votes: 0,
        unix_creation_time_stamp: unix_timestamp as u64,
        msg: message,
        reply_count: 0,
        is_edited: false,
        is_deleted: false,
        is_starred: false,
        is_fed: false,
    };
    ctx.comment.reply_count = ctx.comment.reply_count + 1;
    ctx.chat_account.post_count = ctx.chat_account.post_count + 1;
    Ok(())
}

/// Replaces the message of the signer's comment.
pub fn edit_comment(ctx: &mut EditComment, comment_section_name: String, user_post_count_index: u32, message: String) -> (r: Result<(), ChatError>)
    requires
        old(ctx).comment.post_owner_address == old(ctx).signer && byte_len(message@) <= MAX_COMMENT_LENGTH
            ==> old(ctx).comment_section.post_edited_count < u32::MAX,
    ensures
        performs(r, old(ctx)@, final(ctx)@, edit_comment_step(old(ctx)@, message@)),
{
    if !ctx.comment.post_owner_address.same_as(&ctx.signer) {
        return Err(ChatError::Authorization(AuthorizationError::NotPostOwner));
    }
    if text_byte_len(&message) > MAX_COMMENT_LENGTH {
        return Err(ChatError::InvalidLength(InvalidLengthError::MSGTooLong));
    }
    ctx.comment.msg = message;
    if !ctx.comment.is_edited {
        ctx.comment.is_edited = true;
    }
    ctx.comment_section.post_edited_count = ctx.comment_section.post_edited_count + 1;
    Ok(())
}

/// Marks the signer's comment deleted.
pub fn delete_comment(ctx: &mut DeleteComment, comment_section_name: String, user_post_count_index: u32) -> (r: Result<(), ChatError>)
    requires
        old(ctx).comment.post_owner_address == old(ctx).signer
            ==> old(ctx).comment_section.post_deleted_count < u32::MAX,
    ensures
        performs(r, old(ctx)@, final(ctx)@, delete_comment_step(old(ctx)@)),
{
    if !ctx.comment.post_owner_address.same_as(&ctx.signer) {
        return Err(ChatError::Authorization(AuthorizationError::NotPostOwner));
    }
    ctx.comment.is_deleted = true;
    ctx.comment_section.post_deleted_count = ctx.comment_section.post_deleted_count + 1;
    Ok(())
}

/// Votes a comment up or down; the section's name, the comment's index and its
/// owner only select the accounts.
pub fn vote_comment(
    ctx: &mut VoteComment,
    comment_section_name: String,
    user_post_count_index: u32,
    post_owner_address: Address,
    is_up_vote: bool,
) -> (r: Result<(), ChatError>)
    requires
        !old(ctx).comment.is_deleted ==> old(ctx).comment_section.post_voted_count < u32::MAX,
        !old(ctx).comment.is_deleted && is_up_vote ==> old(ctx).comment.votes < i64::MAX,
        !old(ctx).comment.is_deleted && !is_up_vote ==> old(ctx).comment.votes > i64::MIN,
    ensures
        performs(r, old(ctx)@, final(ctx)@, vote_comment_step(old(ctx)@, is_up_vote)),
{
    if ctx.comment.is_deleted {
        return Err(ChatError::InvalidOperation(InvalidOperationError::Deleted));
    }
    if is_up_vote {
        ctx.comment.votes = ctx.comment.votes + 1;
    } else {
        ctx.comment.votes = ctx.comment.votes - 1;
    }
    ctx.comment_section.post_voted_count = ctx.comment_section.post_voted_count + 1;
    Ok(())
}

/// Stars or unstars a comment; only the operator may.
pub fn star_comment(
    ctx: &mut StarComment,
    comment_section_name: String,
    user_post_count_index: u32,
    post_owner_address: Address,
    is_star: bool,
) -> (r: Result<(), ChatError>)
    requires
        old(ctx).signer == ceo() && old(ctx).comment.is_starred != is_star
            ==> old(ctx).comment_section.post_starred_count < u32::MAX,
    ensures
        performs(r, old(ctx)@, final(ctx)@, star_comment_step(old(ctx)@, is_star)),
{
    let operator = ceo_address();
    if !ctx.signer.same_as(&operator) {
        return Err(ChatError::Authorization(AuthorizationError::NotCEO));
    }
    if ctx.comment.is_starred == is_star {
        return Err(ChatError::InvalidOperation(InvalidOperationError::FlagSameState));
    }
    ctx.comment.is_starred = is_star;
    ctx.comment_section.post_starred_count = ctx.comment_section.post_starred_count + 1;
    Ok(())
}

/// Features or unfeatures a comment; only the operator may.
pub fn fed_comment(
    ctx: &mut FEDComment,
    comment_section_name: String,
    user_post_count_index: u32,
    post_owner_address: Address,
    is_fed: bool,
) -> (r: Result<(), ChatError>)
    requires
        old(ctx).signer == ceo() && old(ctx).comment.is_fed != is_fed
            ==> old(ctx).comment_section.post_fed_count < u32::MAX,
    ensures
        performs(r, old(ctx)@, final(ctx)@, fed_comment_step(old(ctx)@, is_fed)),
{
    let operator = ceo_address();
    if !ctx.signer.same_as(&operator) {
        return Err(ChatError::Authorization(AuthorizationError::NotCEO));
    }
    if ctx.comment.is_fed == is_fed {
        return Err(ChatError::InvalidOperation(InvalidOperationError::FlagSameState));
    }
    ctx.comment.is_fed = is_fed;
    ctx.comment_section.post_fed_count = ctx.comment_section.post_fed_count + 1;
    Ok(())
}

} // verus!
