//! The two requests that the board answers: show the listing, and take a
//! submission.

use crate::ident::{fresh_id, is_random_id};
use crate::post::{Post, PostView};
use crate::render::{
    lemma_blocks_of_joined_runs, page_html, post_html, posts_html, render_page, PAGE_HEAD,
    PAGE_TAIL,
};
use crate::reply::{Rejection, Reply};
use crate::store::{
    after_appends, lemma_appends_extend, lemma_listing_after_append,
    lemma_order_of_appends_is_immaterial, newest_first, PostStore,
};
use crate::text::{field_text, is_blank, lemma_trimmed_empty_iff_blank, lossy_text, texts};
use crate::upload::{
    after_steps, files_created, last_text, lemma_files_are_accounted_for,
    lemma_last_occurrence_wins, Failure, PostData, PostDataView, Reading, StepView,
};
use vstd::prelude::*;

verus! {

/// The post that the complete submission `data` becomes under the identifier
/// `id`.
pub open spec fn post_of(data: PostDataView, id: u128) -> PostView {
    PostView {
        id,
        name: data.name,
        subject: data.subject,
        body: data.body,
        image_url: data.image_path,
    }
}

/// What a board that holds `held` holds after the submission `data` has been
/// offered under the identifier `id`: the post behind all others if the
/// submission is complete, and what it held otherwise.
pub open spec fn held_after(held: Seq<PostView>, data: PostDataView, id: u128) -> Seq<PostView> {
    if data.complete() {
        held.push(post_of(data, id))
    } else {
        held
    }
}

/// The files to delete after the submission `data` has been offered: those
/// written for it if it is turned down, and none if it becomes a post.
pub open spec fn removals_after(data: PostDataView) -> Seq<Seq<char>> {
    if data.complete() {
        Seq::empty()
    } else {
        data.files
    }
}

/// What a submission ends in: the answer to the client, and the disk paths of
/// the files to delete before the answer is sent.
pub struct Answer {
    pub reply: Reply,
    pub remove: Vec<String>,
}

/// Answers a request for the listing: the page with every post of the board,
/// most recent first.
pub fn homepage(store: &PostStore) -> (reply: Reply)
    ensures
        reply matches Reply::Page(html) && html@ == page_html(newest_first(store@)),
{
    let listing = store.snapshot();
    Reply::Page(render_page(&listing))
}

/// Offers the submission `data` to the board under the identifier `id`. A
/// complete submission becomes the board's most recent post, and the client is
/// sent to the listing. One that lacks its name, subject or body is turned
/// down: the board stays as it was, and the files written for the submission
/// are to be deleted.
pub fn publish(store: &mut PostStore, data: PostData, id: u128) -> (answer: Answer)
    ensures
        final(store)@ == held_after(old(store)@, data@, id),
        data@.complete() ==> answer.reply is SeeListing,
        !data@.complete() ==> answer.reply == Reply::Refused(Rejection::MissingFields),
        texts(answer.remove@) == removals_after(data@),
{
    let PostData { name, subject, body, image_path, files } = data;
    match Post::new(id, name, subject, body, image_path) {
        Some(post) => {
            store.append(post);
            let remove: Vec<String> = Vec::new();
            assert(texts(remove@) =~= Seq::<Seq<char>>::empty());
            Answer { reply: Reply::SeeListing, remove }
        },
        None => Answer { reply: Reply::Refused(Rejection::MissingFields), remove: files },
    }
}

/// Ends a submission whose form has been read. A form that was turned down
/// while it was read is answered with that refusal. Otherwise the submission
/// is offered to the board under a fresh identifier: if it is complete it
/// becomes the most recent post and the client is sent to the listing, and if
/// not it is turned down. Whenever the answer is a refusal, the board stays as
/// it was, and every file written for the submission is to be deleted.
pub fn handle_post(store: &mut PostStore, upload: Result<PostData, Failure>) -> (answer: Answer)
    ensures
        match upload {
            Err(failure) => {
                &&& answer.reply == Reply::Refused(failure.rejection)
                &&& texts(answer.remove@) == texts(failure.remove@)
                &&& final(store)@ == old(store)@
            },
            Ok(data) => if data@.complete() {
                &&& answer.reply is SeeListing
                &&& texts(answer.remove@) == Seq::<Seq<char>>::empty()
                &&& final(store)@.len() == old(store)@.len() + 1
                &&& final(store)@ == old(store)@.push(post_of(data@, final(store)@.last().id))
                &&& is_random_id(final(store)@.last().id)
            } else {
                &&& answer.reply == Reply::Refused(Rejection::MissingFields)
                &&& texts(answer.remove@) == data@.files
                &&& final(store)@ == old(store)@
            },
        },
{
    match upload {
        Err(failure) => Answer { reply: Reply::Refused(failure.rejection), remove: failure.remove },
        Ok(data) => publish(store, data, fresh_id()),
    }
}

/// What a board that holds `held` holds after the submissions `offered` have
/// been offered one by one, each under its identifier.
pub open spec fn held_after_all(
    held: Seq<PostView>,
    offered: Seq<(PostDataView, u128)>,
) -> Seq<PostView>
    decreases offered.len(),
{
    if offered.len() == 0 {
        held
    } else {
        held_after(held_after_all(held, offered.drop_last()), offered.last().0, offered.last().1)
    }
}

/// After any sequence of accepted submissions to an empty board, the listing
/// holds one post for each of them, none lost and none twice, and the later
/// of two submissions stands before the earlier.
pub proof fn lemma_listing_reverses_submissions(offered: Seq<(PostDataView, u128)>)
    requires
        forall|i: int| 0 <= i < offered.len() ==> (#[trigger] offered[i]).0.complete(),
    ensures
        held_after_all(Seq::empty(), offered).len() == offered.len(),
        forall|i: int|
            0 <= i < offered.len() ==> newest_first(
                held_after_all(Seq::empty(), offered),
            )[offered.len() - 1 - i] == post_of((#[trigger] offered[i]).0, offered[i].1),
    decreases offered.len(),
{
    if offered.len() > 0 {
        let earlier = offered.drop_last();
        assert forall|i: int| 0 <= i < earlier.len() implies (#[trigger] earlier[i]).0.complete() by {
            assert(earlier[i] == offered[i]);
        }
        lemma_listing_reverses_submissions(earlier);
        let held = held_after_all(Seq::empty(), earlier);
        let last = offered.last();
        assert(last == offered[offered.len() - 1]);
        lemma_listing_after_append(held, post_of(last.0, last.1));
        assert forall|i: int| 0 <= i < offered.len() implies newest_first(
            held_after_all(Seq::empty(), offered),
        )[offered.len() - 1 - i] == post_of((#[trigger] offered[i]).0, offered[i].1) by {
            if i < earlier.len() {
                assert(earlier[i] == offered[i]);
                assert(newest_first(held)[earlier.len() - 1 - i] == post_of(
                    offered[i].0,
                    offered[i].1,
                ));
            }
        }
    }
}

/// The posts that the complete submissions `offered` become, in their order.
pub open spec fn posts_of(offered: Seq<(PostDataView, u128)>) -> Seq<PostView> {
    offered.map_values(|one: (PostDataView, u128)| post_of(one.0, one.1))
}

/// Whether no two posts of `posts` have the same identifier.
pub open spec fn distinct_ids(posts: Seq<PostView>) -> bool {
    forall|i: int, j: int|
        0 <= i < j < posts.len() ==> (#[trigger] posts[i]).id != (#[trigger] posts[j]).id
}

/// Accepted submissions change the board by appending their posts and in no
/// other way: it then holds what it held, followed by one post for each
/// submission in the order of arrival. So the board gives no two posts the
/// same identifier unless the same identifier was drawn twice.
pub proof fn lemma_accepted_are_appended(held: Seq<PostView>, offered: Seq<(PostDataView, u128)>)
    requires
        forall|i: int| 0 <= i < offered.len() ==> (#[trigger] offered[i]).0.complete(),
    ensures
        held_after_all(held, offered) == held + posts_of(offered),
        held_after_all(held, offered) == after_appends(held, posts_of(offered)),
        distinct_ids(held + posts_of(offered)) ==> distinct_ids(held_after_all(held, offered)),
    decreases offered.len(),
{
    lemma_appends_extend(held, posts_of(offered));
    if offered.len() == 0 {
        assert(held + posts_of(offered) =~= held);
    } else {
        let earlier = offered.drop_last();
        assert forall|i: int| 0 <= i < earlier.len() implies (#[trigger] earlier[i]).0.complete() by {
            assert(earlier[i] == offered[i]);
        }
        lemma_accepted_are_appended(held, earlier);
        let last = offered.last();
        assert(last == offered[offered.len() - 1]);
        assert(posts_of(offered) =~= posts_of(earlier).push(post_of(last.0, last.1)));
        assert(held + posts_of(offered) =~= (held + posts_of(earlier)).push(
            post_of(last.0, last.1),
        ));
    }
}

/// In whatever order accepted submissions reach the board, it then holds the
/// same posts: those it held and one for each submission, none lost and none
/// twice. The order in which requests served at the same time come to the
/// board decides the places of their posts, and nothing else.
pub proof fn lemma_order_of_arrival_is_immaterial(
    held: Seq<PostView>,
    first: Seq<(PostDataView, u128)>,
    second: Seq<(PostDataView, u128)>,
)
    requires
        forall|i: int| 0 <= i < first.len() ==> (#[trigger] first[i]).0.complete(),
        forall|i: int| 0 <= i < second.len() ==> (#[trigger] second[i]).0.complete(),
        posts_of(first).to_multiset() == posts_of(second).to_multiset(),
    ensures
        held_after_all(held, first).to_multiset() == held_after_all(held, second).to_multiset(),
        held_after_all(held, first).to_multiset() == held.to_multiset().add(
            posts_of(first).to_multiset(),
        ),
        held_after_all(held, first).len() == held.len() + first.len(),
        held_after_all(held, second).len() == held.len() + first.len(),
{
    lemma_accepted_are_appended(held, first);
    lemma_accepted_are_appended(held, second);
    lemma_order_of_appends_is_immaterial(held, posts_of(first), posts_of(second));
}

/// What the board answers to a submission whose reading stands at `reading`.
pub open spec fn refusal_of(reading: Reading) -> Option<Rejection> {
    match reading {
        Reading::Closed(why, _) => Some(why),
        Reading::Open(gathered) => if gathered.complete() {
            None
        } else {
            Some(Rejection::MissingFields)
        },
    }
}

/// A form in which the name, the subject or the body is absent, empty or white
/// space only, counting the last occurrence of each, makes no post. If its
/// reading was not refused before, the submission is turned down as the
/// client's fault at the end. Either way the board stays as it was, and every
/// file that was created for the submission is to be deleted, so that none is
/// left behind.
pub proof fn lemma_blank_submission_refused(held: Seq<PostView>, steps: Seq<StepView>, id: u128)
    requires
        last_text(steps, "name"@).len() == 0 || last_text(steps, "subject"@).len() == 0
            || last_text(steps, "body"@).len() == 0,
    ensures
        refusal_of(after_steps(PostDataView::blank(), steps)) is Some,
        match after_steps(PostDataView::blank(), steps) {
            Reading::Open(gathered) => {
                &&& !gathered.complete()
                &&& held_after(held, gathered, id) == held
                &&& removals_after(gathered) == files_created(PostDataView::blank(), steps)
                &&& Rejection::MissingFields.status_of() == 400
            },
            Reading::Closed(_, remove) => remove == files_created(PostDataView::blank(), steps),
        },
{
    lemma_last_occurrence_wins(steps);
    lemma_files_are_accounted_for(PostDataView::blank(), steps);
}

/// Whenever a submission ends in a refusal, the files to delete are exactly
/// those that were created for it; and when it becomes a post, none is
/// deleted.
pub proof fn lemma_refusal_leaves_no_file(steps: Seq<StepView>)
    ensures
        match after_steps(PostDataView::blank(), steps) {
            Reading::Open(gathered) => removals_after(gathered) == (if gathered.complete() {
                Seq::<Seq<char>>::empty()
            } else {
                files_created(PostDataView::blank(), steps)
            }),
            Reading::Closed(_, remove) => remove == files_created(PostDataView::blank(), steps),
        },
{
    lemma_files_are_accounted_for(PostDataView::blank(), steps);
}

/// The text of a field is empty exactly if the bytes sent for it decode to
/// nothing or to white space only.
pub proof fn lemma_field_empty_iff_blank(bytes: Seq<u8>)
    ensures
        field_text(bytes).len() == 0 <==> is_blank(lossy_text(bytes)),
{
    lemma_trimmed_empty_iff_blank(lossy_text(bytes));
}

/// A complete submission is the first post of the next listing, and the
/// earlier listing follows it unchanged.
pub proof fn lemma_accepted_post_is_listed_first(held: Seq<PostView>, data: PostDataView, id: u128)
    requires
        data.complete(),
    ensures
        newest_first(held_after(held, data, id)) == seq![post_of(data, id)] + newest_first(held),
        newest_first(held_after(held, data, id))[0] == post_of(data, id),
{
    lemma_listing_after_append(held, post_of(data, id));
}

/// On the page that follows an accepted submission, the block of the new post
/// stands directly below the form, above the blocks of all earlier posts.
pub proof fn lemma_accepted_post_heads_the_page(
    held: Seq<PostView>,
    data: PostDataView,
    id: u128,
)
    requires
        data.complete(),
    ensures
        page_html(newest_first(held_after(held, data, id))) == PAGE_HEAD@ + post_html(
            post_of(data, id),
        ) + posts_html(newest_first(held)) + PAGE_TAIL@,
{
    let post = post_of(data, id);
    lemma_listing_after_append(held, post);
    lemma_blocks_of_joined_runs(seq![post], newest_first(held));
    assert(posts_html(seq![post]) == post_html(post)) by {
        assert(seq![post].drop_last() =~= Seq::<PostView>::empty());
        assert(seq![post].last() == post);
        assert(posts_html(seq![post].drop_last()) =~= Seq::<char>::empty());
        assert(Seq::<char>::empty() + post_html(post) =~= post_html(post));
    }
}

} // verus!
