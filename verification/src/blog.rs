use vstd::prelude::*;
use vstd::string::StringExecFns;

verus! {

/// The review state of a blog post. A draft is sent to review, needs two
/// approvals to be published, and a rejection during review sends it back to
/// draft.
#[derive(Clone, Copy, Debug, PartialEq, Eq, Structural)]
pub enum State {
    Draft,
    PendingFirstReview,
    PendingSecondReview,
    Published,
}

/// What can be done to a post, as the state machine sees it.
pub enum Action {
    AddText(Seq<char>),
    RequestReview,
    Approve,
    Reject,
}

impl State {
    /// The state after a review is requested.
    pub open spec fn after_review(self) -> State {
        match self {
            State::Draft => State::PendingFirstReview,
            _ => self,
        }
    }

    /// The state after an approval.
    pub open spec fn after_approval(self) -> State {
        match self {
            State::PendingFirstReview => State::PendingSecondReview,
            State::PendingSecondReview => State::Published,
            _ => self,
        }
    }

    /// The state after a rejection.
    pub open spec fn after_rejection(self) -> State {
        match self {
            State::PendingFirstReview | State::PendingSecondReview => State::Draft,
            _ => self,
        }
    }

    /// The text a post holds after `text_to_add` is offered to it in this
    /// state: only a draft accepts it.
    pub open spec fn text_after_adding(self, original: Seq<char>, text_to_add: Seq<char>) -> Seq<
        char,
    > {
        if self is Draft {
            original + text_to_add
        } else {
            original
        }
    }

    /// The text a post in this state shows: its whole text once published,
    /// nothing before.
    pub open spec fn shown_text(self, text: Seq<char>) -> Seq<char> {
        if self is Published {
            text
        } else {
            Seq::empty()
        }
    }

    /// Returns the text of a post in this state after `text_to_add` is
    /// offered: appended in draft, ignored otherwise.
    pub fn add_text(&self, original_text: &str, text_to_add: &str) -> (r: String)
        ensures
            r@ == self.text_after_adding(original_text@, text_to_add@),
            self == State::Draft ==> r@ == original_text@ + text_to_add@,
            self != State::Draft ==> r@ == original_text@,
    {
        let mut text = original_text.to_owned();
        match self {
            State::Draft => {
                text.append(text_to_add);
            },
            _ => {},
        }
        text
    }

    /// Returns what `post` shows in this state: its content once published,
    /// the empty string before.
    pub fn content<'a>(&self, post: &'a Post) -> (r: &'a str)
        ensures
            r@ == self.shown_text(post@.1),
            self == State::Published ==> r@ == post@.1,
            self != State::Published ==> r@.len() == 0,
    {
        match self {
            State::Published => post.content.as_str(),
            _ => {
                proof {
                    reveal_strlit("");
                }
                ""
            },
        }
    }

    /// The state that follows a request for review.
    pub fn request_review(self) -> (r: State)
        ensures
            r == self.after_review(),
            self == State::Draft ==> r == State::PendingFirstReview,
            self != State::Draft ==> r == self,
    {
        match self {
            State::Draft => State::PendingFirstReview,
            _ => self,
        }
    }

    /// The state that follows an approval.
    pub fn approve(self) -> (r: State)
        ensures
            r == self.after_approval(),
            self == State::PendingFirstReview ==> r == State::PendingSecondReview,
            self == State::PendingSecondReview ==> r == State::Published,
            self == State::Draft || self == State::Published ==> r == self,
    {
        match self {
            State::PendingFirstReview => State::PendingSecondReview,
            State::PendingSecondReview => State::Published,
            _ => self,
        }
    }

    /// The state that follows a rejection.
    pub fn reject(self) -> (r: State)
        ensures
            r == self.after_rejection(),
            self == State::PendingFirstReview || self == State::PendingSecondReview ==> r
                == State::Draft,
            self == State::Draft || self == State::Published ==> r == self,
    {
        match self {
            State::PendingFirstReview => State::Draft,
            State::PendingSecondReview => State::Draft,
            _ => self,
        }
    }
}

/// The state and text of a post after `action`.
pub open spec fn apply(post: (State, Seq<char>), action: Action) -> (State, Seq<char>) {
    match action {
        Action::AddText(t) => (post.0, post.0.text_after_adding(post.1, t)),
        Action::RequestReview => (post.0.after_review(), post.1),
        Action::Approve => (post.0.after_approval(), post.1),
        Action::Reject => (post.0.after_rejection(), post.1),
    }
}

/// The state and text of a post after the actions in `actions`, in order.
pub open spec fn apply_all(post: (State, Seq<char>), actions: Seq<Action>) -> (State, Seq<char>)
    decreases actions.len(),
{
    if actions.len() == 0 {
        post
    } else {
        apply_all(apply(post, actions[0]), actions.drop_first())
    }
}

/// How many approvals `actions` holds.
pub open spec fn approval_count(actions: Seq<Action>) -> nat
    decreases actions.len(),
{
    if actions.len() == 0 {
        0
    } else {
        (if actions[0] is Approve {
            1nat
        } else {
            0nat
        }) + approval_count(actions.drop_first())
    }
}

/// How far along its reviews a post in `s` is: the number of approvals it has
/// collected since it last left the draft state.
pub open spec fn review_progress(s: State) -> int {
    match s {
        State::Draft => 0,
        State::PendingFirstReview => 0,
        State::PendingSecondReview => 1,
        State::Published => 2,
    }
}

/// The transitions of the review workflow, state by state. A request for
/// review moves only a draft (to its first review) and leaves every other
/// state as it is, so it never moves a post back or discards an approval. An
/// approval moves the first review to the second and the second to
/// publication, and leaves a draft or a published post as it is. A rejection
/// sends either review back to draft and leaves a draft or a published post
/// as it is.
pub proof fn lemma_transitions(s: State)
    ensures
        s == State::Draft ==> s.after_review() == State::PendingFirstReview,
        s != State::Draft ==> s.after_review() == s,
        s == State::PendingFirstReview ==> s.after_approval() == State::PendingSecondReview,
        s == State::PendingSecondReview ==> s.after_approval() == State::Published,
        s == State::Draft || s == State::Published ==> s.after_approval() == s,
        s == State::PendingFirstReview || s == State::PendingSecondReview ==> s.after_rejection()
            == State::Draft,
        s == State::Draft || s == State::Published ==> s.after_rejection() == s,
        review_progress(s.after_review()) == review_progress(s),
        review_progress(s.after_approval()) <= review_progress(s) + 1,
{
}

/// What a post's text becomes when text is offered, and what it shows: a
/// draft appends the offered text, every other state keeps its text; only a
/// published post shows its text, every other state shows nothing.
pub proof fn lemma_text_rules(s: State, text: Seq<char>, offered: Seq<char>)
    ensures
        s == State::Draft ==> s.text_after_adding(text, offered) == text + offered,
        s != State::Draft ==> s.text_after_adding(text, offered) == text,
        s == State::Published ==> s.shown_text(text) == text,
        s != State::Published ==> s.shown_text(text).len() == 0,
{
}

/// Once published, a post stays as it is: no sequence of actions changes its
/// state or its text.
pub proof fn lemma_published_is_final(post: (State, Seq<char>), actions: Seq<Action>)
    requires
        post.0 is Published,
    ensures
        apply_all(post, actions) == post,
    decreases actions.len(),
{
    if actions.len() > 0 {
        lemma_published_is_final(apply(post, actions[0]), actions.drop_first());
    }
}

/// Each review state is entered only from the one before it: the first
/// review only from a draft on a request for review, the second review only
/// from the first on an approval, and publication only from the second review
/// on an approval.
pub proof fn lemma_states_entered_in_order(post: (State, Seq<char>), action: Action)
    ensures
        apply(post, action).0 is PendingFirstReview && !(post.0 is PendingFirstReview) ==> post.0
            is Draft && action is RequestReview,
        apply(post, action).0 is PendingSecondReview && !(post.0 is PendingSecondReview)
            ==> post.0 is PendingFirstReview && action is Approve,
        apply(post, action).0 is Published && !(post.0 is Published) ==> post.0
            is PendingSecondReview && action is Approve,
{
}

/// The text of a post changes only when text is added to a draft, and then
/// the new text is the old text followed by the added text.
pub proof fn lemma_text_changes_only_in_draft(post: (State, Seq<char>), action: Action)
    ensures
        apply(post, action).1 != post.1 ==> post.0 is Draft && action is AddText,
        action matches Action::AddText(t) ==> apply(post, action).1 == (if post.0 is Draft {
            post.1 + t
        } else {
            post.1
        }),
{
}

/// Review progress grows by at most one per approval.
pub proof fn lemma_progress_bounded_by_approvals(post: (State, Seq<char>), actions: Seq<Action>)
    ensures
        review_progress(apply_all(post, actions).0) - review_progress(post.0) <= approval_count(
            actions,
        ),
    decreases actions.len(),
{
    if actions.len() > 0 {
        lemma_progress_bounded_by_approvals(apply(post, actions[0]), actions.drop_first());
    }
}

/// A new post can be published only after at least two approvals.
pub proof fn lemma_publication_needs_two_approvals(actions: Seq<Action>)
    ensures
        apply_all((State::Draft, Seq::<char>::empty()), actions).0 is Published ==> approval_count(
            actions,
        ) >= 2,
{
    lemma_progress_bounded_by_approvals((State::Draft, Seq::<char>::empty()), actions);
}

/// A blog post: its text, and the review state that decides whether the
/// text is shown and whether more text is accepted.
pub struct Post {
    state: State,
    content: String,
}

impl View for Post {
    type V = (State, Seq<char>);

    closed spec fn view(&self) -> (State, Seq<char>) {
        (self.state, self.content@)
    }
}

impl Post {
    /// A new post: a draft with no text.
    pub fn new() -> (post: Post)
        ensures
            post@ == (State::Draft, Seq::<char>::empty()),
    {
        Post { state: State::Draft, content: String::new() }
    }

    /// Offers `text` to the post: a draft appends it, any other state ignores it.
    pub fn add_text(&mut self, text: &str)
        ensures
            final(self)@ == apply(old(self)@, Action::AddText(text@)),
            final(self)@.0 == old(self)@.0,
            final(self)@.1 == if old(self)@.0 is Draft {
                old(self)@.1 + text@
            } else {
                old(self)@.1
            },
    {
        self.content = self.state.add_text(self.content.as_str(), text);
    }

    /// The text the post shows: all of it once published, the empty string before.
    pub fn content(&self) -> (r: &str)
        ensures
            r@ == self@.0.shown_text(self@.1),
            r@ == if self@.0 is Published {
                self@.1
            } else {
                Seq::empty()
            },
    {
        self.state.content(self)
    }

    /// Asks for review: a draft moves to its first review; other states stay.
    pub fn request_review(&mut self)
        ensures
            final(self)@ == apply(old(self)@, Action::RequestReview),
            final(self)@ == (old(self)@.0.after_review(), old(self)@.1),
    {
        self.state = self.state.request_review();
    }

    /// Approves the post: the first review leads to the second, the second to
    /// publication; other states stay.
    pub fn approve(&mut self)
        ensures
            final(self)@ == apply(old(self)@, Action::Approve),
            final(self)@ == (old(self)@.0.after_approval(), old(self)@.1),
    {
        self.state = self.state.approve();
    }

    /// Rejects the post: either review sends it back to draft; other states stay.
    pub fn reject(&mut self)
        ensures
            final(self)@ == apply(old(self)@, Action::Reject),
            final(self)@ == (old(self)@.0.after_rejection(), old(self)@.1),
    {
        self.state = self.state.reject();
    }
}

} // verus!
