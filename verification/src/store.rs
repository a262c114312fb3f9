//! The board's memory: every post, in the order in which it was added.

use crate::post::{Post, PostView};
use vstd::prelude::*;
use vstd::seq_lib::{lemma_multiset_commutative, to_multiset_len};

verus! {

/// The posts of `posts`, each as its view.
pub open spec fn views(posts: Seq<Post>) -> Seq<PostView> {
    posts.map_values(|p: Post| p@)
}

/// The listing of a board that holds `held`, oldest first: the same posts,
/// newest first.
pub open spec fn newest_first(held: Seq<PostView>) -> Seq<PostView> {
    held.reverse()
}

/// What a board that holds `held` holds after the posts of `added` have been
/// appended one by one, in their order.
pub open spec fn after_appends(held: Seq<PostView>, added: Seq<PostView>) -> Seq<PostView>
    decreases added.len(),
{
    if added.len() == 0 {
        held
    } else {
        after_appends(held, added.drop_last()).push(added.last())
    }
}

/// The single owner of the posts. Its view is the sequence of posts in the
/// order of their arrival, oldest first.
///
/// An append takes the store exclusively and a snapshot takes it shared, so
/// no reader ever sees an append half done. A program that serves many
/// requests at once keeps the store behind a lock; the posts then stand in the
/// order in which the lock was taken.
pub struct PostStore {
    posts: Vec<Post>,
}

impl View for PostStore {
    type V = Seq<PostView>;

    closed spec fn view(&self) -> Seq<PostView> {
        views(self.posts@)
    }
}

impl PostStore {
    /// An empty board.
    pub fn new() -> (store: PostStore)
        ensures
            store@ == Seq::<PostView>::empty(),
    {
        let store = PostStore { posts: Vec::new() };
        assert(store@ =~= Seq::<PostView>::empty());
        store
    }

    /// The number of posts held.
    pub fn len(&self) -> (n: usize)
        ensures
            n == self@.len(),
    {
        self.posts.len()
    }

    /// Adds `post` as the most recent entry. Nothing else changes.
    pub fn append(&mut self, post: Post)
        ensures
            final(self)@ == old(self)@.push(post@),
    {
        self.posts.push(post);
        assert(self@ =~= old(self)@.push(post@));
    }

    /// A copy of all posts, most recently appended first. Each of them is
    /// complete.
    pub fn snapshot(&self) -> (listing: Vec<Post>)
        ensures
            views(listing@) == newest_first(self@),
            forall|i: int| 0 <= i < listing@.len() ==> (#[trigger] listing@[i])@.complete(),
    {
        let mut listing: Vec<Post> = Vec::new();
        let total: usize = self.posts.len();
        let mut taken: usize = 0;
        while taken < total
            invariant
                total == self.posts@.len(),
                taken <= total,
                listing@.len() == taken,
                forall|i: int|
                    0 <= i < taken ==> (#[trigger] listing@[i])@ == self.posts@[total - 1 - i]@,
                forall|i: int| 0 <= i < taken ==> (#[trigger] listing@[i])@.complete(),
            decreases total - taken,
        {
            let post = &self.posts[total - 1 - taken];
            let copy = post.clone();
            listing.push(copy);
            taken = taken + 1;
        }
        assert(views(listing@) =~= newest_first(self@));
        listing
    }
}

/// Appending posts one by one puts them behind what was held, in their order.
pub proof fn lemma_appends_extend(held: Seq<PostView>, added: Seq<PostView>)
    ensures
        after_appends(held, added) == held + added,
    decreases added.len(),
{
    if added.len() == 0 {
        assert(held + added =~= held);
    } else {
        lemma_appends_extend(held, added.drop_last());
        assert(held + added =~= (held + added.drop_last()).push(added.last()));
    }
}

/// In whatever order posts are appended, the board then holds the same
/// posts: each of those it held and each of those added, as often as it was
/// added, and no other.
pub proof fn lemma_order_of_appends_is_immaterial(
    held: Seq<PostView>,
    first: Seq<PostView>,
    second: Seq<PostView>,
)
    requires
        first.to_multiset() == second.to_multiset(),
    ensures
        after_appends(held, first).to_multiset() == held.to_multiset().add(first.to_multiset()),
        after_appends(held, first).to_multiset() == after_appends(held, second).to_multiset(),
        after_appends(held, first).len() == held.len() + first.len(),
        after_appends(held, second).len() == held.len() + first.len(),
{
    lemma_appends_extend(held, first);
    lemma_appends_extend(held, second);
    lemma_multiset_commutative(held, first);
    lemma_multiset_commutative(held, second);
    to_multiset_len(first);
    to_multiset_len(second);
}

/// After any sequence of appends to an empty board, the listing holds exactly
/// the appended posts, each once, the latest first: the post appended as number
/// `i` stands at place `n - 1 - i` of `n`, so of two posts the later one comes
/// first.
pub proof fn lemma_listing_reverses_appends(added: Seq<PostView>)
    ensures
        newest_first(after_appends(Seq::empty(), added)) == added.reverse(),
        newest_first(after_appends(Seq::empty(), added)).len() == added.len(),
        forall|i: int|
            0 <= i < added.len() ==> newest_first(after_appends(Seq::empty(), added))[added.len()
                - 1 - i] == #[trigger] added[i],
{
    lemma_appends_extend(Seq::empty(), added);
    assert(Seq::<PostView>::empty() + added =~= added);
}

/// A listing taken after an append shows the new post first and, behind it,
/// the listing as it was before.
pub proof fn lemma_listing_after_append(held: Seq<PostView>, post: PostView)
    ensures
        newest_first(held.push(post)) == seq![post] + newest_first(held),
{
    assert(newest_first(held.push(post)) =~= seq![post] + newest_first(held));
}

} // verus!
