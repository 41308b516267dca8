use chat::{
    ceo_address, delete_comment, edit_comment, fed_comment, post_comment, post_reply,
    set_user_name_flag, star_comment, vote_comment, Address, ChatAccount, ChatError, Comment,
    CommentSection, DeleteComment, EditComment, FEDComment, InvalidOperationError, PostComment,
    PostReply, SetUserNameFlag, StarComment, VoteComment,
};

fn addr(b: u8) -> Address {
    Address { bytes: [b; 32] }
}

fn blank_comment() -> Comment {
    Comment {
        id: 0,
        parent_id: 0,
        user_post_count_index: 0,
        post_owner_address: addr(0),
        votes: 0,
        unix_creation_time_stamp: 0,
        msg: String::new(),
        reply_count: 0,
        is_edited: false,
        is_deleted: false,
        is_starred: false,
        is_fed: false,
    }
}

fn owned_comment(owner: Address) -> Comment {
    let mut c = blank_comment();
    c.id = 1;
    c.post_owner_address = owner;
    c.msg = String::from("hi");
    c
}

fn total(s: &CommentSection) -> u64 {
    s.post_count as u64
        + s.post_edited_count as u64
        + s.post_deleted_count as u64
        + s.post_voted_count as u64
        + s.post_starred_count as u64
        + s.post_fed_count as u64
}

#[test]
fn law_user_name_flag_round_trip() {
    let mut ctx = SetUserNameFlag {
        chat_account: ChatAccount { post_count: 3, user_name: String::from("zed"), use_custom_name: false },
        signer: addr(1),
    };
    assert_eq!(set_user_name_flag(&mut ctx, true), Ok(()));
    assert_eq!(
        set_user_name_flag(&mut ctx, true),
        Err(ChatError::InvalidOperation(InvalidOperationError::FlagSameState))
    );
    assert_eq!(set_user_name_flag(&mut ctx, false), Ok(()));
    assert_eq!(ctx.chat_account.post_count, 3);
    assert_eq!(ctx.chat_account.user_name, "zed");
    assert!(!ctx.chat_account.use_custom_name);
}

#[test]
fn law_star_and_fed_round_trip() {
    let start = CommentSection::new();
    let mut star = StarComment { comment_section: start, comment: owned_comment(addr(2)), signer: ceo_address() };
    assert_eq!(star_comment(&mut star, String::from("s"), 0, addr(2), true), Ok(()));
    assert_eq!(star_comment(&mut star, String::from("s"), 0, addr(2), false), Ok(()));
    assert!(!star.comment.is_starred);
    assert_eq!(star.comment_section.post_starred_count, 2);

    let mut fed = FEDComment { comment_section: start, comment: owned_comment(addr(2)), signer: ceo_address() };
    assert_eq!(fed_comment(&mut fed, String::from("s"), 0, addr(2), true), Ok(()));
    assert_eq!(fed_comment(&mut fed, String::from("s"), 0, addr(2), false), Ok(()));
    assert!(!fed.comment.is_fed);
    assert_eq!(fed.comment_section.post_fed_count, 2);
}

#[test]
fn law_vote_round_trip() {
    let mut c = owned_comment(addr(2));
    c.votes = -7;
    let mut ctx = VoteComment {
        chat_account: ChatAccount { post_count: 0, user_name: String::new(), use_custom_name: false },
        comment_section: CommentSection::new(),
        comment: c,
        signer: addr(3),
    };
    assert_eq!(vote_comment(&mut ctx, String::from("s"), 0, addr(2), true), Ok(()));
    assert_eq!(vote_comment(&mut ctx, String::from("s"), 0, addr(2), false), Ok(()));
    assert_eq!(ctx.comment.votes, -7);
    assert_eq!(ctx.comment_section.post_voted_count, 2);
}

#[test]
fn law_deleted_comment_refuses_votes() {
    let mut del = DeleteComment { comment_section: CommentSection::new(), comment: owned_comment(addr(2)), signer: addr(2) };
    assert_eq!(delete_comment(&mut del, String::from("s"), 0), Ok(()));
    let mut vote = VoteComment {
        chat_account: ChatAccount { post_count: 0, user_name: String::new(), use_custom_name: false },
        comment_section: del.comment_section,
        comment: del.comment,
        signer: addr(9),
    };
    for up in [true, false] {
        assert_eq!(
            vote_comment(&mut vote, String::from("s"), 0, addr(2), up),
            Err(ChatError::InvalidOperation(InvalidOperationError::Deleted))
        );
    }
    assert_eq!(vote.comment.votes, 0);
}

#[test]
fn law_marks_are_permanent() {
    let mut edit = EditComment { comment_section: CommentSection::new(), comment: owned_comment(addr(2)), signer: addr(2) };
    assert_eq!(edit_comment(&mut edit, String::from("s"), 0, String::from("v2")), Ok(()));
    let mut del = DeleteComment { comment_section: edit.comment_section, comment: edit.comment, signer: addr(2) };
    assert_eq!(delete_comment(&mut del, String::from("s"), 0), Ok(()));
    let mut star = StarComment { comment_section: del.comment_section, comment: del.comment, signer: ceo_address() };
    assert_eq!(star_comment(&mut star, String::from("s"), 0, addr(2), true), Ok(()));
    let mut edit2 = EditComment { comment_section: star.comment_section, comment: star.comment, signer: addr(2) };
    assert_eq!(edit_comment(&mut edit2, String::from("s"), 0, String::from("v3")), Ok(()));
    assert!(edit2.comment.is_deleted);
    assert!(edit2.comment.is_edited);
}

#[test]
fn law_posts_are_numbered_in_order() {
    let mut first = PostComment {
        chat_account: ChatAccount { post_count: 5, user_name: String::new(), use_custom_name: false },
        comment_section: CommentSection::new(),
        comment: blank_comment(),
        signer: addr(4),
    };
    assert_eq!(post_comment(&mut first, String::from("s"), String::from("one"), 10), Ok(()));
    let mut second = PostComment {
        chat_account: ChatAccount { post_count: first.chat_account.post_count, user_name: String::new(), use_custom_name: false },
        comment_section: first.comment_section,
        comment: blank_comment(),
        signer: addr(4),
    };
    assert_eq!(post_comment(&mut second, String::from("s"), String::from("two"), 11), Ok(()));
    assert_eq!(second.comment.id, first.comment.id + 1);
    assert_eq!(second.comment.user_post_count_index, first.comment.user_post_count_index + 1);

    let mut reply = PostReply {
        chat_account: ChatAccount { post_count: second.chat_account.post_count, user_name: String::new(), use_custom_name: false },
        comment_section: second.comment_section,
        comment: first.comment,
        reply: blank_comment(),
        signer: addr(4),
    };
    assert_eq!(post_reply(&mut reply, String::from("s"), 5, addr(4), String::from("three"), 12), Ok(()));
    assert_eq!(reply.reply.id, second.comment.id + 1);
    assert_eq!(reply.reply.user_post_count_index, second.comment.user_post_count_index + 1);
    assert_eq!(reply.reply.parent_id, reply.comment.id);
}

#[test]
fn law_each_success_counted_once() {
    let mut c = owned_comment(addr(2));
    c.is_starred = false;
    let s0 = CommentSection::new();
    let mut edit = EditComment { comment_section: s0, comment: c, signer: addr(2) };
    assert_eq!(edit_comment(&mut edit, String::from("s"), 0, String::from("x")), Ok(()));
    assert_eq!(total(&edit.comment_section), total(&s0) + 1);
    // A refused instruction is not counted.
    let before = edit.comment_section;
    edit.signer = addr(3);
    assert!(edit_comment(&mut edit, String::from("s"), 0, String::from("y")).is_err());
    assert_eq!(total(&edit.comment_section), total(&before));
    let mut star = StarComment { comment_section: edit.comment_section, comment: edit.comment, signer: ceo_address() };
    assert_eq!(star_comment(&mut star, String::from("s"), 0, addr(2), true), Ok(()));
    assert_eq!(total(&star.comment_section), total(&before) + 1);
}

#[test]
fn law_section_posts_are_numbered() {
    let mut section = CommentSection::new();
    let mut posts: Vec<Comment> = Vec::new();
    // comment, reply to it, comment, reply to the reply, reply to the first comment
    let plan: [(bool, usize); 5] = [(false, 0), (true, 0), (false, 0), (true, 1), (true, 0)];
    for (i, (is_reply, parent)) in plan.iter().enumerate() {
        let signer = addr(i as u8 + 1);
        let account = ChatAccount { post_count: 0, user_name: String::new(), use_custom_name: false };
        if *is_reply {
            let mut ctx = PostReply {
                chat_account: account,
                comment_section: section,
                comment: posts[*parent].clone(),
                reply: blank_comment(),
                signer,
            };
            assert_eq!(post_reply(&mut ctx, String::from("s"), 0, addr(0), String::from("r"), 1), Ok(()));
            section = ctx.comment_section;
            posts[*parent] = ctx.comment;
            posts.push(ctx.reply);
        } else {
            let mut ctx = PostComment { chat_account: account, comment_section: section, comment: blank_comment(), signer };
            assert_eq!(post_comment(&mut ctx, String::from("s"), String::from("c"), 1), Ok(()));
            section = ctx.comment_section;
            posts.push(ctx.comment);
        }
    }
    assert_eq!(section.post_count, 5);
    for (i, p) in posts.iter().enumerate() {
        assert_eq!(p.id as usize, i + 1);
        if plan[i].0 {
            assert!(1 <= p.parent_id && p.parent_id < p.id);
        } else {
            assert_eq!(p.parent_id, 0);
        }
    }
    assert_eq!(posts[0].reply_count, 2);
    assert_eq!(posts[1].reply_count, 1);
}

#[test]
fn law_user_posts_are_indexed() {
    let mut account = ChatAccount { post_count: 0, user_name: String::from("u"), use_custom_name: true };
    let me = addr(8);
    let mut indices = Vec::new();
    for k in 0..4u32 {
        if k % 2 == 0 {
            let mut ctx = PostComment { chat_account: account, comment_section: CommentSection::new(), comment: blank_comment(), signer: me };
            assert_eq!(post_comment(&mut ctx, format!("section{}", k), String::from("c"), 1), Ok(()));
            assert_eq!(ctx.comment.post_owner_address, me);
            indices.push(ctx.comment.user_post_count_index);
            account = ctx.chat_account;
        } else {
            let mut ctx = PostReply {
                chat_account: account,
                comment_section: CommentSection::new(),
                comment: owned_comment(addr(1)),
                reply: blank_comment(),
                signer: me,
            };
            assert_eq!(post_reply(&mut ctx, String::from("s"), 0, addr(1), String::from("r"), 1), Ok(()));
            assert_eq!(ctx.reply.post_owner_address, me);
            indices.push(ctx.reply.user_post_count_index);
            account = ctx.chat_account;
        }
    }
    assert_eq!(account.post_count, 4);
    assert_eq!(indices, vec![0, 1, 2, 3]);
    assert_eq!(account.user_name, "u");
}

#[test]
fn law_deleted_comment_refuses_votes_forever() {
    let mut c = owned_comment(addr(2));
    c.votes = 4;
    let mut del = DeleteComment { comment_section: CommentSection::new(), comment: c, signer: addr(2) };
    assert_eq!(delete_comment(&mut del, String::from("s"), 0), Ok(()));
    let mut s = del.comment_section;
    let mut c = del.comment;
    for round in 0..3 {
        let mut vote = VoteComment {
            chat_account: ChatAccount { post_count: 0, user_name: String::new(), use_custom_name: false },
            comment_section: s,
            comment: c,
            signer: addr(round + 3),
        };
        assert_eq!(
            vote_comment(&mut vote, String::from("s"), 0, addr(2), round % 2 == 0),
            Err(ChatError::InvalidOperation(InvalidOperationError::Deleted))
        );
        let mut edit = EditComment { comment_section: vote.comment_section, comment: vote.comment, signer: addr(2) };
        assert_eq!(edit_comment(&mut edit, String::from("s"), 0, String::from("still here")), Ok(()));
        let mut star = StarComment { comment_section: edit.comment_section, comment: edit.comment, signer: ceo_address() };
        assert_eq!(star_comment(&mut star, String::from("s"), 0, addr(2), round % 2 == 0), Ok(()));
        let mut reply = PostReply {
            chat_account: ChatAccount { post_count: 0, user_name: String::new(), use_custom_name: false },
            comment_section: star.comment_section,
            comment: star.comment,
            reply: blank_comment(),
            signer: addr(7),
        };
        assert_eq!(post_reply(&mut reply, String::from("s"), 0, addr(2), String::from("r"), 1), Ok(()));
        s = reply.comment_section;
        c = reply.comment;
        assert!(c.is_deleted);
        assert_eq!(c.votes, 4);
    }
}
