use vstd::prelude::*;

use crate::address::ceo;
use crate::errors::ChatError;
use crate::instructions::{
    create_chat_account_step, create_comment_section_step, delete_comment_step, edit_comment_step,
    fed_comment_step, flag_same_state, message_too_long, not_ceo, not_post_owner,
    post_comment_step, post_deleted, post_reply_step, set_user_name_flag_step, set_user_name_step,
    star_comment_step, user_name_too_long, vote_comment_step, ModerationView, PostView, ReplyView,
    SectionView, UserView,
};
use crate::state::{byte_len, CommentSection, MAX_COMMENT_LENGTH, MAX_USER_NAME_LENGTH};

verus! {

// What each instruction does, told by its inputs and its results: when it
// succeeds, which error it gives otherwise, and how each field it touches
// relates to the accounts and arguments it was given.

/// Two sections agree on every counter but the post counter.
pub open spec fn same_but_post_count(a: CommentSection, b: CommentSection) -> bool {
    &&& a.post_edited_count == b.post_edited_count
    &&& a.post_deleted_count == b.post_deleted_count
    &&& a.post_voted_count == b.post_voted_count
    &&& a.post_starred_count == b.post_starred_count
    &&& a.post_fed_count == b.post_fed_count
}

/// A new chat account has no posts, an empty name and the name not in use,
/// whatever the account held; the signer is kept.
pub proof fn create_chat_account_outcome(pre: UserView)
    ensures
        create_chat_account_step(pre) matches Ok(post) && post.chat_account.post_count == 0
            && post.chat_account.user_name.len() == 0 && !post.chat_account.use_custom_name
            && post.signer == pre.signer,
{
}

/// A new section has every counter at zero, whatever the account held.
pub proof fn create_comment_section_outcome(pre: SectionView)
    ensures
        create_comment_section_step(pre) matches Ok(post) && post.comment_section.post_count == 0
            && post.comment_section.post_edited_count == 0 && post.comment_section.post_deleted_count == 0
            && post.comment_section.post_voted_count == 0 && post.comment_section.post_starred_count == 0
            && post.comment_section.post_fed_count == 0 && post.signer == pre.signer,
{
}

/// Every name of at most `MAX_USER_NAME_LENGTH` UTF-8 bytes is taken, whatever
/// name and flag the account had: the account then holds exactly that name,
/// with its use on and its post count kept. A longer name is refused with
/// `UserNameTooLong`.
pub proof fn set_user_name_outcome(pre: UserView, user_name: Seq<char>)
    ensures
        set_user_name_step(pre, user_name) is Ok <==> byte_len(user_name) <= MAX_USER_NAME_LENGTH,
        set_user_name_step(pre, user_name) matches Ok(post) ==> {
            &&& post.chat_account.user_name == user_name
            &&& post.chat_account.use_custom_name
            &&& post.chat_account.post_count == pre.chat_account.post_count
            &&& post.signer == pre.signer
        },
        set_user_name_step(pre, user_name) matches Err(e) ==> e == user_name_too_long(),
{
}

/// The use of the custom name is set to any value it does not have, and only
/// the flag changes; setting the value it has is refused with `FlagSameState`.
pub proof fn set_user_name_flag_outcome(pre: UserView, is_enabled: bool)
    ensures
        set_user_name_flag_step(pre, is_enabled) is Ok <==> pre.chat_account.use_custom_name != is_enabled,
        set_user_name_flag_step(pre, is_enabled) matches Ok(post) ==> {
            &&& post.chat_account.use_custom_name == is_enabled
            &&& post.chat_account.user_name == pre.chat_account.user_name
            &&& post.chat_account.post_count == pre.chat_account.post_count
        },
        set_user_name_flag_step(pre, is_enabled) matches Err(e) ==> e == flag_same_state(),
{
}

/// Every comment of at most `MAX_COMMENT_LENGTH` UTF-8 bytes is posted,
/// whatever its characters: the new comment holds exactly the message, is
/// numbered one past the section's count, has no parent, is filed under the
/// author's count, is owned by the signer, carries the time, and starts with
/// no votes, no replies and no marks; the section and the author each count
/// one more post and nothing else changes in them. A longer message is refused
/// with `MSGTooLong`.
pub proof fn post_comment_outcome(pre: PostView, message: Seq<char>, unix_timestamp: i64)
    requires
        pre.comment_section.post_count < u32::MAX,
        pre.chat_account.post_count < u32::MAX,
    ensures
        post_comment_step(pre, message, unix_timestamp) is Ok <==> byte_len(message) <= MAX_COMMENT_LENGTH,
        post_comment_step(pre, message, unix_timestamp) matches Ok(post) ==> {
            &&& post.comment.msg == message
            &&& post.comment.id == pre.comment_section.post_count + 1
            &&& post.comment.parent_id == 0
            &&& post.comment.user_post_count_index == pre.chat_account.post_count
            &&& post.comment.post_owner_address == pre.signer
            &&& post.comment.unix_creation_time_stamp == unix_timestamp as u64
            &&& post.comment.votes == 0 && post.comment.reply_count == 0
            &&& !post.comment.is_edited && !post.comment.is_deleted
            &&& !post.comment.is_starred && !post.comment.is_fed
            &&& post.comment_section.post_count == pre.comment_section.post_count + 1
            &&& same_but_post_count(post.comment_section, pre.comment_section)
            &&& post.chat_account.post_count == pre.chat_account.post_count + 1
            &&& post.chat_account.user_name == pre.chat_account.user_name
            &&& post.chat_account.use_custom_name == pre.chat_account.use_custom_name
            &&& post.signer == pre.signer
        },
        post_comment_step(pre, message, unix_timestamp) matches Err(e) ==> e == message_too_long(),
{
}

/// Every reply of at most `MAX_COMMENT_LENGTH` characters is posted under the
/// post it answers, whether that post is a comment or itself a reply: the
/// reply's parent is that post's id, the reply holds exactly the message, is
/// numbered one past the section's count, is filed under the author's count,
/// is owned by the signer, carries the time and starts with no votes, no
/// replies and no marks; the post answered counts one more reply and is
/// otherwise unchanged; the section and the author each count one more post.
/// A longer message is refused with `MSGTooLong`.
pub proof fn post_reply_outcome(pre: ReplyView, message: Seq<char>, unix_timestamp: i64)
    requires
        pre.comment_section.post_count < u32::MAX,
        pre.chat_account.post_count < u32::MAX,
        pre.comment.reply_count < u32::MAX,
    ensures
        post_reply_step(pre, message, unix_timestamp) is Ok <==> message.len() <= MAX_COMMENT_LENGTH,
        post_reply_step(pre, message, unix_timestamp) matches Ok(post) ==> {
            &&& post.reply.parent_id == pre.comment.id
            &&& post.reply.msg == message
            &&& post.reply.id == pre.comment_section.post_count + 1
            &&& post.reply.user_post_count_index == pre.chat_account.post_count
            &&& post.reply.post_owner_address == pre.signer
            &&& post.reply.unix_creation_time_stamp == unix_timestamp as u64
            &&& post.reply.votes == 0 && post.reply.reply_count == 0
            &&& !post.reply.is_edited && !post.reply.is_deleted
            &&& !post.reply.is_starred && !post.reply.is_fed
            &&& post.comment.reply_count == pre.comment.reply_count + 1
            &&& post.comment.id == pre.comment.id
            &&& post.comment.parent_id == pre.comment.parent_id
            &&& post.comment.msg == pre.comment.msg
            &&& post.comment.votes == pre.comment.votes
            &&& post.comment.post_owner_address == pre.comment.post_owner_address
            &&& post.comment.is_deleted == pre.comment.is_deleted
            &&& post.comment_section.post_count == pre.comment_section.post_count + 1
            &&& same_but_post_count(post.comment_section, pre.comment_section)
            &&& post.chat_account.post_count == pre.chat_account.post_count + 1
            &&& post.chat_account.user_name == pre.chat_account.user_name
        },
        post_reply_step(pre, message, unix_timestamp) matches Err(e) ==> e == message_too_long(),
{
}

/// The owner's edit with a message of at most `MAX_COMMENT_LENGTH` UTF-8
/// bytes always takes effect, whether or not the comment was edited before:
/// the comment then holds exactly the new message and is marked edited, its
/// other fields are kept, and the section counts one more edit. Anyone else
/// is refused with `NotPostOwner`; the owner's longer message with
/// `MSGTooLong`.
pub proof fn edit_comment_outcome(pre: ModerationView, message: Seq<char>)
    requires
        pre.comment_section.post_edited_count < u32::MAX,
    ensures
        edit_comment_step(pre, message) is Ok <==> pre.comment.post_owner_address == pre.signer && byte_len(message)
            <= MAX_COMMENT_LENGTH,
        edit_comment_step(pre, message) matches Ok(post) ==> {
            &&& post.comment.msg == message
            &&& post.comment.is_edited
            &&& post.comment.id == pre.comment.id
            &&& post.comment.parent_id == pre.comment.parent_id
            &&& post.comment.votes == pre.comment.votes
            &&& post.comment.reply_count == pre.comment.reply_count
            &&& post.comment.post_owner_address == pre.comment.post_owner_address
            &&& post.comment.is_deleted == pre.comment.is_deleted
            &&& post.comment.is_starred == pre.comment.is_starred
            &&& post.comment.is_fed == pre.comment.is_fed
            &&& post.comment_section.post_edited_count == pre.comment_section.post_edited_count + 1
            &&& post.comment_section.post_count == pre.comment_section.post_count
        },
        pre.comment.post_owner_address != pre.signer ==> edit_comment_step(pre, message) == Err::<ModerationView, _>(
            not_post_owner(),
        ),
        pre.comment.post_owner_address == pre.signer && byte_len(message) > MAX_COMMENT_LENGTH
            ==> edit_comment_step(pre, message) == Err::<ModerationView, _>(message_too_long()),
{
}

/// The owner's delete always marks the comment deleted, keeps its message and
/// votes, and counts one more deletion; anyone else is refused with
/// `NotPostOwner`.
pub proof fn delete_comment_outcome(pre: ModerationView)
    requires
        pre.comment_section.post_deleted_count < u32::MAX,
    ensures
        delete_comment_step(pre) is Ok <==> pre.comment.post_owner_address == pre.signer,
        delete_comment_step(pre) matches Ok(post) ==> {
            &&& post.comment.is_deleted
            &&& post.comment.msg == pre.comment.msg
            &&& post.comment.votes == pre.comment.votes
            &&& post.comment.id == pre.comment.id
            &&& post.comment_section.post_deleted_count == pre.comment_section.post_deleted_count + 1
        },
        delete_comment_step(pre) matches Err(e) ==> e == not_post_owner(),
{
}

/// Every vote on a comment that is not deleted is applied, by any voter: the
/// votes move by exactly one in the direction voted, the voter's account is
/// not touched, and the section counts one more vote. Two voters casting the
/// same vote on the same comment leave it the same. A vote on a deleted
/// comment is refused with `Deleted`.
pub proof fn vote_comment_outcome(pre: PostView, other_voter: PostView, is_up_vote: bool)
    requires
        pre.comment.votes < i64::MAX,
        pre.comment.votes > i64::MIN,
        pre.comment_section.post_voted_count < u32::MAX,
        other_voter.comment == pre.comment,
        other_voter.comment_section == pre.comment_section,
    ensures
        vote_comment_step(pre, is_up_vote) is Ok <==> !pre.comment.is_deleted,
        vote_comment_step(pre, is_up_vote) matches Ok(post) ==> {
            &&& post.comment.votes == pre.comment.votes + (if is_up_vote { 1int } else { -1int })
            &&& post.comment.msg == pre.comment.msg
            &&& post.comment.is_deleted == pre.comment.is_deleted
            &&& post.chat_account == pre.chat_account
            &&& post.comment_section.post_voted_count == pre.comment_section.post_voted_count + 1
            &&& vote_comment_step(other_voter, is_up_vote) matches Ok(other) && other.comment == post.comment
                && other.comment_section == post.comment_section
        },
        vote_comment_step(pre, is_up_vote) matches Err(e) ==> e == post_deleted(),
{
}

/// The operator can set the star to any value it does not have, changing
/// only that mark and counting one more star change; anyone else is refused
/// with `NotCEO`, and the operator asking for the value it has with
/// `FlagSameState`.
pub proof fn star_comment_outcome(pre: ModerationView, is_star: bool)
    requires
        pre.comment_section.post_starred_count < u32::MAX,
    ensures
        star_comment_step(pre, is_star) is Ok <==> pre.signer == ceo() && pre.comment.is_starred != is_star,
        star_comment_step(pre, is_star) matches Ok(post) ==> {
            &&& post.comment.is_starred == is_star
            &&& post.comment.is_fed == pre.comment.is_fed
            &&& post.comment.msg == pre.comment.msg
            &&& post.comment.votes == pre.comment.votes
            &&& post.comment_section.post_starred_count == pre.comment_section.post_starred_count + 1
        },
        pre.signer != ceo() ==> star_comment_step(pre, is_star) == Err::<ModerationView, _>(not_ceo()),
        pre.signer == ceo() && pre.comment.is_starred == is_star ==> star_comment_step(pre, is_star)
            == Err::<ModerationView, _>(flag_same_state()),
{
}

/// The operator can set the feature mark to any value it does not have,
/// changing only that mark and counting one more feature change; anyone else
/// is refused with `NotCEO`, and the operator asking for the value it has with
/// `FlagSameState`.
pub proof fn fed_comment_outcome(pre: ModerationView, is_fed: bool)
    requires
        pre.comment_section.post_fed_count < u32::MAX,
    ensures
        fed_comment_step(pre, is_fed) is Ok <==> pre.signer == ceo() && pre.comment.is_fed != is_fed,
        fed_comment_step(pre, is_fed) matches Ok(post) ==> {
            &&& post.comment.is_fed == is_fed
            &&& post.comment.is_starred == pre.comment.is_starred
            &&& post.comment.msg == pre.comment.msg
            &&& post.comment.votes == pre.comment.votes
            &&& post.comment_section.post_fed_count == pre.comment_section.post_fed_count + 1
        },
        pre.signer != ceo() ==> fed_comment_step(pre, is_fed) == Err::<ModerationView, _>(not_ceo()),
        pre.signer == ceo() && pre.comment.is_fed == is_fed ==> fed_comment_step(pre, is_fed)
            == Err::<ModerationView, _>(flag_same_state()),
{
}

} // verus!
