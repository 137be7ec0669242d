use rustbook::blog::{Post, State};

#[test]
fn test() {
    let mut post = Post::new();

    post.add_text("I ate a salad for lunch today");
    post.add_text("\nAnd a steak!");
    assert_eq!("", post.content());

    post.request_review();
    post.add_text("\nAnd dessert!");
    assert_eq!("", post.content());

    post.approve();
    post.add_text("\nAnd coffee!");
    assert_eq!("", post.content());

    post.approve();
    post.add_text("\nAnd coffee!");
    assert_eq!("I ate a salad for lunch today\nAnd a steak!", post.content());
}

#[test]
fn one_approval_does_not_publish() {
    let mut post = Post::new();
    post.add_text("draft");
    post.approve();
    assert_eq!("", post.content());
    post.request_review();
    post.approve();
    assert_eq!("", post.content());
    post.approve();
    assert_eq!("draft", post.content());
}

#[test]
fn rejection_returns_to_draft() {
    let mut post = Post::new();
    post.add_text("a");
    post.request_review();
    post.approve();
    post.reject();
    // back in draft: text is accepted again
    post.add_text("b");
    post.request_review();
    post.approve();
    post.approve();
    assert_eq!("ab", post.content());
}

#[test]
fn published_post_is_final() {
    let mut post = Post::new();
    post.add_text("final text");
    post.request_review();
    post.approve();
    post.approve();
    post.reject();
    post.request_review();
    post.add_text(" more");
    post.approve();
    assert_eq!("final text", post.content());
}

#[test]
fn state_transitions() {
    assert_eq!(State::Draft.request_review(), State::PendingFirstReview);
    assert_eq!(State::Draft.approve(), State::Draft);
    assert_eq!(State::Draft.reject(), State::Draft);
    assert_eq!(State::PendingFirstReview.approve(), State::PendingSecondReview);
    assert_eq!(State::PendingFirstReview.reject(), State::Draft);
    assert_eq!(State::PendingFirstReview.request_review(), State::PendingFirstReview);
    assert_eq!(State::PendingSecondReview.approve(), State::Published);
    assert_eq!(State::PendingSecondReview.reject(), State::Draft);
    assert_eq!(State::Published.approve(), State::Published);
    assert_eq!(State::Published.reject(), State::Published);
    assert_eq!(State::Published.request_review(), State::Published);
}

#[test]
fn state_add_text() {
    assert_eq!(State::Draft.add_text("ab", "cd"), "abcd");
    assert_eq!(State::PendingFirstReview.add_text("ab", "cd"), "ab");
    assert_eq!(State::Published.add_text("ab", "cd"), "ab");
}
