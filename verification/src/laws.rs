use vstd::prelude::*;

use crate::errors::ChatError;
use crate::instructions::{
    delete_comment_step, edit_comment_step, fed_comment_step, flag_same_state, post_comment_step,
    post_deleted, post_reply_step, set_user_name_flag_step, star_comment_step, vote_comment_step,
    ModerationView, PostView, ReplyView, UserView,
};
use crate::address::Address;
use crate::state::{ChatAccountView, CommentSection, CommentView};

verus! {

/// Setting the use of the custom name to a new value and then setting it back
/// gives the account exactly as it was; setting the same value again instead
/// is refused.
pub proof fn user_name_flag_round_trip(pre: UserView, is_enabled: bool)
    requires
        set_user_name_flag_step(pre, is_enabled) is Ok,
    ensures
        ({
            let mid = set_user_name_flag_step(pre, is_enabled)->Ok_0;
            &&& set_user_name_flag_step(mid, is_enabled) == Err::<UserView, _>(flag_same_state())
            &&& set_user_name_flag_step(mid, !is_enabled) == Ok::<_, ChatError>(pre)
        }),
{
    let mid = set_user_name_flag_step(pre, is_enabled)->Ok_0;
    assert(set_user_name_flag_step(mid, !is_enabled)->Ok_0 == pre);
}

/// Starring and then unstarring (or the reverse) leaves the comment exactly as
/// it was and counts two changes; repeating the same change is refused.
pub proof fn star_round_trip(pre: ModerationView, is_star: bool)
    requires
        star_comment_step(pre, is_star) is Ok,
        pre.comment_section.post_starred_count + 2 <= u32::MAX,
    ensures
        ({
            let mid = star_comment_step(pre, is_star)->Ok_0;
            &&& star_comment_step(mid, is_star) == Err::<ModerationView, _>(flag_same_state())
            &&& star_comment_step(mid, !is_star) matches Ok(post)
            &&& post.comment == pre.comment
            &&& post.comment_section == CommentSection {
                post_starred_count: (pre.comment_section.post_starred_count + 2) as u32,
                ..pre.comment_section
            }
        }),
{
}

/// Featuring and then unfeaturing (or the reverse) leaves the comment exactly
/// as it was and counts two changes; repeating the same change is refused.
pub proof fn fed_round_trip(pre: ModerationView, is_fed: bool)
    requires
        fed_comment_step(pre, is_fed) is Ok,
        pre.comment_section.post_fed_count + 2 <= u32::MAX,
    ensures
        ({
            let mid = fed_comment_step(pre, is_fed)->Ok_0;
            &&& fed_comment_step(mid, is_fed) == Err::<ModerationView, _>(flag_same_state())
            &&& fed_comment_step(mid, !is_fed) matches Ok(post)
            &&& post.comment == pre.comment
            &&& post.comment_section == CommentSection {
                post_fed_count: (pre.comment_section.post_fed_count + 2) as u32,
                ..pre.comment_section
            }
        }),
{
}

/// An up vote followed by a down vote leaves the comment's votes as they were
/// and counts two votes.
pub proof fn vote_round_trip(pre: PostView)
    requires
        !pre.comment.is_deleted,
        pre.comment.votes < i64::MAX,
        pre.comment_section.post_voted_count + 2 <= u32::MAX,
    ensures
        ({
            let mid = vote_comment_step(pre, true)->Ok_0;
            &&& vote_comment_step(pre, true) is Ok
            &&& vote_comment_step(mid, false) matches Ok(post)
            &&& post.comment == pre.comment
            &&& post.chat_account == pre.chat_account
            &&& post.comment_section == CommentSection {
                post_voted_count: (pre.comment_section.post_voted_count + 2) as u32,
                ..pre.comment_section
            }
        }),
{
}

/// Once its owner has deleted a comment, every vote on it is refused.
pub proof fn deleted_comment_refuses_votes(pre: ModerationView, voter: PostView, is_up_vote: bool)
    requires
        delete_comment_step(pre) is Ok,
        voter.comment == delete_comment_step(pre)->Ok_0.comment,
    ensures
        vote_comment_step(voter, is_up_vote) == Err::<PostView, _>(post_deleted()),
{
}

/// Deleted and edited marks are never taken back: no instruction that succeeds
/// on a comment clears either.
pub proof fn marks_are_permanent(
    m: ModerationView,
    v: PostView,
    r: ReplyView,
    message: Seq<char>,
    unix_timestamp: i64,
    flag: bool,
)
    ensures
        edit_comment_step(m, message) matches Ok(post)
            ==> (m.comment.is_deleted ==> post.comment.is_deleted) && post.comment.is_edited,
        delete_comment_step(m) matches Ok(post)
            ==> post.comment.is_deleted && (m.comment.is_edited ==> post.comment.is_edited),
        star_comment_step(m, flag) matches Ok(post)
            ==> post.comment.is_deleted == m.comment.is_deleted && post.comment.is_edited == m.comment.is_edited,
        fed_comment_step(m, flag) matches Ok(post)
            ==> post.comment.is_deleted == m.comment.is_deleted && post.comment.is_edited == m.comment.is_edited,
        vote_comment_step(v, flag) matches Ok(post)
            ==> post.comment.is_deleted == v.comment.is_deleted && post.comment.is_edited == v.comment.is_edited,
        post_reply_step(r, message, unix_timestamp) matches Ok(post)
            ==> post.comment.is_deleted == r.comment.is_deleted && post.comment.is_edited == r.comment.is_edited,
{
}

/// Posts are numbered in the order they are made: a user's next post in the
/// same section, comment or reply, gets the next post number of the section
/// and the user's next post index.
pub proof fn posts_are_numbered_in_order(
    first: PostView,
    first_message: Seq<char>,
    first_time: i64,
    next_comment: PostView,
    next_reply: ReplyView,
    next_message: Seq<char>,
    next_time: i64,
)
    requires
        post_comment_step(first, first_message, first_time) is Ok,
        first.comment_section.post_count + 2 <= u32::MAX,
        first.chat_account.post_count + 2 <= u32::MAX,
        next_comment.chat_account == post_comment_step(first, first_message, first_time)->Ok_0.chat_account,
        next_comment.comment_section == post_comment_step(first, first_message, first_time)->Ok_0.comment_section,
        next_reply.chat_account == post_comment_step(first, first_message, first_time)->Ok_0.chat_account,
        next_reply.comment_section == post_comment_step(first, first_message, first_time)->Ok_0.comment_section,
    ensures
        ({
            let posted = post_comment_step(first, first_message, first_time)->Ok_0.comment;
            &&& post_comment_step(next_comment, next_message, next_time) matches Ok(after)
                ==> after.comment.id == posted.id + 1
                && after.comment.user_post_count_index == posted.user_post_count_index + 1
            &&& post_reply_step(next_reply, next_message, next_time) matches Ok(after)
                ==> after.reply.id == posted.id + 1
                && after.reply.user_post_count_index == posted.user_post_count_index + 1
        }),
{
}

/// The sum of a section's counters.
pub open spec fn activity(s: CommentSection) -> int {
    s.post_count + s.post_edited_count + s.post_deleted_count + s.post_voted_count
        + s.post_starred_count + s.post_fed_count
}

/// Every instruction that succeeds on a section is counted there exactly once:
/// the sum of the section's counters grows by one.
pub proof fn each_success_counted_once(
    m: ModerationView,
    v: PostView,
    r: ReplyView,
    message: Seq<char>,
    unix_timestamp: i64,
    flag: bool,
)
    requires
        m.comment_section.post_edited_count < u32::MAX,
        m.comment_section.post_deleted_count < u32::MAX,
        m.comment_section.post_starred_count < u32::MAX,
        m.comment_section.post_fed_count < u32::MAX,
        v.comment_section.post_count < u32::MAX,
        v.comment_section.post_voted_count < u32::MAX,
        r.comment_section.post_count < u32::MAX,
    ensures
        edit_comment_step(m, message) matches Ok(post) ==> activity(post.comment_section) == activity(m.comment_section) + 1,
        delete_comment_step(m) matches Ok(post) ==> activity(post.comment_section) == activity(m.comment_section) + 1,
        star_comment_step(m, flag) matches Ok(post) ==> activity(post.comment_section) == activity(m.comment_section) + 1,
        fed_comment_step(m, flag) matches Ok(post) ==> activity(post.comment_section) == activity(m.comment_section) + 1,
        vote_comment_step(v, flag) matches Ok(post) ==> activity(post.comment_section) == activity(v.comment_section) + 1,
        post_comment_step(v, message, unix_timestamp) matches Ok(post)
            ==> activity(post.comment_section) == activity(v.comment_section) + 1,
        post_reply_step(r, message, unix_timestamp) matches Ok(post)
            ==> activity(post.comment_section) == activity(r.comment_section) + 1,
{
}

// ---------------------------------------------------------------------------
// Laws over any number of instructions.
// ---------------------------------------------------------------------------

/// One post made in a section: a comment, or a reply to the post stored at
/// position `parent` of the section's posts so far, by `signer` with account
/// `chat_account`, written over the new account `fresh`.
pub struct SectionPost {
    pub is_reply: bool,
    pub parent: int,
    pub chat_account: ChatAccountView,
    pub signer: Address,
    pub fresh: CommentView,
    pub message: Seq<char>,
    pub unix_timestamp: i64,
}

/// The section and its posts, in the order they were made, after the posts
/// `calls` made from `start`; `None` when one of them is refused or replies to
/// a post the section does not hold.
pub open spec fn section_after(start: CommentSection, calls: Seq<SectionPost>) -> Option<(CommentSection, Seq<CommentView>)>
    decreases calls.len(),
{
    if calls.len() == 0 {
        Some((start, Seq::empty()))
    } else {
        match section_after(start, calls.drop_last()) {
            None => None,
            Some((s, posts)) => {
                let c = calls.last();
                if !c.is_reply {
                    match post_comment_step(
                        PostView { chat_account: c.chat_account, comment_section: s, comment: c.fresh, signer: c.signer },
                        c.message,
                        c.unix_timestamp,
                    ) {
                        Ok(p) => Some((p.comment_section, posts.push(p.comment))),
                        Err(_) => None,
                    }
                } else if 0 <= c.parent < posts.len() {
                    match post_reply_step(
                        ReplyView {
                            chat_account: c.chat_account,
                            comment_section: s,
                            comment: posts[c.parent],
                            reply: c.fresh,
                            signer: c.signer,
                        },
                        c.message,
                        c.unix_timestamp,
                    ) {
                        Ok(p) => Some((p.comment_section, posts.update(c.parent, p.comment).push(p.reply))),
                        Err(_) => None,
                    }
                } else {
                    None
                }
            },
        }
    }
}

/// In a section made by `create_comment_section`, after any `n` posts that all
/// succeed, comments and replies in any order and by any signers, the section
/// counts `n` posts, the posts are numbered exactly 1 to `n` in the order they
/// were made, a comment has parent 0, and a reply's parent is an earlier post.
pub proof fn section_posts_are_numbered(calls: Seq<SectionPost>)
    requires
        calls.len() <= u32::MAX,
        section_after(CommentSection::initial(), calls) is Some,
    ensures
        ({
            let (s, posts) = section_after(CommentSection::initial(), calls)->Some_0;
            &&& s.post_count == calls.len()
            &&& posts.len() == calls.len()
            &&& forall|i: int| 0 <= i < posts.len() ==> #[trigger] posts[i].id == i + 1
            &&& forall|i: int|
                0 <= i < posts.len() && !calls[i].is_reply ==> #[trigger] posts[i].parent_id == 0
            &&& forall|i: int|
                0 <= i < posts.len() && calls[i].is_reply ==> 1 <= #[trigger] posts[i].parent_id < posts[i].id
        }),
    decreases calls.len(),
{
    if calls.len() > 0 {
        let prefix = calls.drop_last();
        section_posts_are_numbered(prefix);
        let (s0, posts0) = section_after(CommentSection::initial(), prefix)->Some_0;
        let (s, posts) = section_after(CommentSection::initial(), calls)->Some_0;
        assert forall|i: int| 0 <= i < posts.len() implies #[trigger] posts[i].id == i + 1 by {
            if i < posts0.len() {
                assert(posts0[i].id == i + 1);
            }
        }
        assert forall|i: int|
            0 <= i < posts.len() && !calls[i].is_reply implies #[trigger] posts[i].parent_id == 0 by {
            if i < posts0.len() {
                assert(prefix[i] == calls[i]);
                assert(posts0[i].parent_id == 0);
            }
        }
        assert forall|i: int|
            0 <= i < posts.len() && calls[i].is_reply implies 1 <= #[trigger] posts[i].parent_id < posts[i].id by {
            if i < posts0.len() {
                assert(prefix[i] == calls[i]);
                assert(1 <= posts0[i].parent_id < posts0[i].id);
            } else {
                let c = calls.last();
                assert(posts0[c.parent].id == c.parent + 1);
            }
        }
    }
}

/// One post made by a user: a comment, or a reply to `parent`, in a section
/// whose state is `comment_section`, written over the new account `fresh`.
pub struct UserPost {
    pub is_reply: bool,
    pub parent: CommentView,
    pub comment_section: CommentSection,
    pub fresh: CommentView,
    pub message: Seq<char>,
    pub unix_timestamp: i64,
}

/// The author's account and the posts made, in order, after the posts `calls`
/// signed by `signer` starting from the account `start`; `None` when one of
/// them is refused.
pub open spec fn user_after(start: ChatAccountView, signer: Address, calls: Seq<UserPost>) -> Option<(ChatAccountView, Seq<CommentView>)>
    decreases calls.len(),
{
    if calls.len() == 0 {
        Some((start, Seq::empty()))
    } else {
        match user_after(start, signer, calls.drop_last()) {
            None => None,
            Some((a, posts)) => {
                let c = calls.last();
                if !c.is_reply {
                    match post_comment_step(
                        PostView { chat_account: a, comment_section: c.comment_section, comment: c.fresh, signer },
                        c.message,
                        c.unix_timestamp,
                    ) {
                        Ok(p) => Some((p.chat_account, posts.push(p.comment))),
                        Err(_) => None,
                    }
                } else {
                    match post_reply_step(
                        ReplyView {
                            chat_account: a,
                            comment_section: c.comment_section,
                            comment: c.parent,
                            reply: c.fresh,
                            signer,
                        },
                        c.message,
                        c.unix_timestamp,
                    ) {
                        Ok(p) => Some((p.chat_account, posts.push(p.reply))),
                        Err(_) => None,
                    }
                }
            },
        }
    }
}

/// From a chat account with no posts, after any `m` posts signed by its owner
/// that all succeed, in any sections, the account counts `m` posts and the
/// `j`-th post is filed under index `j` and owned by the signer; so no two of
/// them share an index.
pub proof fn user_posts_are_indexed(start: ChatAccountView, signer: Address, calls: Seq<UserPost>)
    requires
        start.post_count == 0,
        calls.len() <= u32::MAX,
        user_after(start, signer, calls) is Some,
    ensures
        ({
            let (a, posts) = user_after(start, signer, calls)->Some_0;
            &&& a.post_count == calls.len()
            &&& a.user_name == start.user_name
            &&& a.use_custom_name == start.use_custom_name
            &&& posts.len() == calls.len()
            &&& forall|j: int| 0 <= j < posts.len() ==> #[trigger] posts[j].user_post_count_index == j
            &&& forall|j: int| 0 <= j < posts.len() ==> #[trigger] posts[j].post_owner_address == signer
        }),
    decreases calls.len(),
{
    if calls.len() > 0 {
        let prefix = calls.drop_last();
        user_posts_are_indexed(start, signer, prefix);
        let (a0, posts0) = user_after(start, signer, prefix)->Some_0;
        let (a, posts) = user_after(start, signer, calls)->Some_0;
        assert forall|j: int| 0 <= j < posts.len() implies #[trigger] posts[j].user_post_count_index == j by {
            if j < posts0.len() {
                assert(posts0[j].user_post_count_index == j);
            }
        }
        assert forall|j: int| 0 <= j < posts.len() implies #[trigger] posts[j].post_owner_address == signer by {
            if j < posts0.len() {
                assert(posts0[j].post_owner_address == signer);
            }
        }
    }
}

/// An instruction that works on one given comment.
pub enum CommentCall {
    Edit { signer: Address, message: Seq<char> },
    Delete { signer: Address },
    Vote { chat_account: ChatAccountView, signer: Address, is_up_vote: bool },
    Star { signer: Address, is_star: bool },
    Fed { signer: Address, is_fed: bool },
    Reply { chat_account: ChatAccountView, signer: Address, fresh: CommentView, message: Seq<char>, unix_timestamp: i64 },
}

/// What `call` returns when made on the comment `c` of section `s`, and the
/// comment and section after it.
pub open spec fn call_on_comment(c: CommentView, s: CommentSection, call: CommentCall) -> (Result<(), ChatError>, CommentView, CommentSection) {
    let outcome: Result<(CommentView, CommentSection), ChatError> = match call {
        CommentCall::Edit { signer, message } => match edit_comment_step(
            ModerationView { comment_section: s, comment: c, signer },
            message,
        ) {
            Ok(p) => Ok((p.comment, p.comment_section)),
            Err(e) => Err(e),
        },
        CommentCall::Delete { signer } => match delete_comment_step(ModerationView { comment_section: s, comment: c, signer }) {
            Ok(p) => Ok((p.comment, p.comment_section)),
            Err(e) => Err(e),
        },
        CommentCall::Vote { chat_account, signer, is_up_vote } => match vote_comment_step(
            PostView { chat_account, comment_section: s, comment: c, signer },
            is_up_vote,
        ) {
            Ok(p) => Ok((p.comment, p.comment_section)),
            Err(e) => Err(e),
        },
        CommentCall::Star { signer, is_star } => match star_comment_step(
            ModerationView { comment_section: s, comment: c, signer },
            is_star,
        ) {
            Ok(p) => Ok((p.comment, p.comment_section)),
            Err(e) => Err(e),
        },
        CommentCall::Fed { signer, is_fed } => match fed_comment_step(
            ModerationView { comment_section: s, comment: c, signer },
            is_fed,
        ) {
            Ok(p) => Ok((p.comment, p.comment_section)),
            Err(e) => Err(e),
        },
        CommentCall::Reply { chat_account, signer, fresh, message, unix_timestamp } => match post_reply_step(
            ReplyView { chat_account, comment_section: s, comment: c, reply: fresh, signer },
            message,
            unix_timestamp,
        ) {
            Ok(p) => Ok((p.comment, p.comment_section)),
            Err(e) => Err(e),
        },
    };
    match outcome {
        Ok((c2, s2)) => (Ok(()), c2, s2),
        Err(e) => (Err(e), c, s),
    }
}

/// The comment and its section after the instructions `calls` made on it, in
/// order, from comment `c` in section `s`.
pub open spec fn comment_after(c: CommentView, s: CommentSection, calls: Seq<CommentCall>) -> (CommentView, CommentSection)
    decreases calls.len(),
{
    if calls.len() == 0 {
        (c, s)
    } else {
        let (c0, s0) = comment_after(c, s, calls.drop_last());
        let (_, c1, s1) = call_on_comment(c0, s0, calls.last());
        (c1, s1)
    }
}

/// A deleted comment stays deleted and keeps its votes through any
/// instructions made on it.
pub proof fn deleted_comment_keeps_deleted(c: CommentView, s: CommentSection, calls: Seq<CommentCall>)
    requires
        c.is_deleted,
    ensures
        comment_after(c, s, calls).0.is_deleted,
        comment_after(c, s, calls).0.votes == c.votes,
    decreases calls.len(),
{
    if calls.len() > 0 {
        deleted_comment_keeps_deleted(c, s, calls.drop_last());
    }
}

/// Once its owner has deleted a comment, whatever instructions follow on it,
/// every vote on it is refused with `Deleted`, its votes never change, and it
/// stays deleted.
pub proof fn deleted_comment_refuses_votes_forever(pre: ModerationView, calls: Seq<CommentCall>)
    requires
        delete_comment_step(pre) is Ok,
    ensures
        ({
            let deleted = delete_comment_step(pre)->Ok_0;
            &&& forall|i: int| #![trigger calls[i]]
                0 <= i < calls.len() && calls[i] is Vote ==> {
                    let (c, s) = comment_after(deleted.comment, deleted.comment_section, calls.take(i));
                    call_on_comment(c, s, calls[i]).0 == Err::<(), ChatError>(post_deleted())
                }
            &&& comment_after(deleted.comment, deleted.comment_section, calls).0.is_deleted
            &&& comment_after(deleted.comment, deleted.comment_section, calls).0.votes == pre.comment.votes
        }),
{
    let deleted = delete_comment_step(pre)->Ok_0;
    assert forall|i: int| #![trigger calls[i]]
        0 <= i < calls.len() && calls[i] is Vote implies {
            let (c, s) = comment_after(deleted.comment, deleted.comment_section, calls.take(i));
            call_on_comment(c, s, calls[i]).0 == Err::<(), ChatError>(post_deleted())
        } by {
        deleted_comment_keeps_deleted(deleted.comment, deleted.comment_section, calls.take(i));
    }
    deleted_comment_keeps_deleted(deleted.comment, deleted.comment_section, calls);
}

} // verus!
