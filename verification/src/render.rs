//! The page: the form, and below it every post, the newest first. Whatever a
//! visitor wrote enters the page escaped.

use crate::escape::{encode_html, html_safe, is_markup, lemma_escaped_has_no_markup};
use crate::ident::{hyphenated, id_text, lemma_hyphenated_chars};
use crate::post::{Post, PostView};
use crate::store::views;
use vstd::prelude::*;
use vstd::string::*;

verus! {

/// The page up to the first post: the head of the document and the form.
pub const PAGE_HEAD: &'static str = r#"<!doctype html>
<html lang="en">
<head>
<meta charset="utf-8">
<title>No DB with Images</title>
<meta name="viewport" content="width=device-width, initial-scale=1">
</head>
<body>
<h1>No DB Minimal Board with Images</h1>
<form name="post" enctype="multipart/form-data" action="/post" method="post" style="margin-bottom:20px;">
    <input type="text" name="name" placeholder="Name" required style="display:block;margin-bottom:10px;">
    <input type="text" name="subject" placeholder="Subject" required style="display:block;margin-bottom:10px;">
    <textarea name="body" rows="5" cols="35" placeholder="Comment" required style="display:block;width:300px;height:100px;margin-bottom:10px;"></textarea>
    <input type="file" name="file" accept=".jpg,.jpeg,.png,.gif,.webp" style="display:block;margin-bottom:10px;">
    <input type="submit" value="Post">
</form>
<hr>
"#;

/// The page after the last post.
pub const PAGE_TAIL: &'static str = "\n</body>\n</html>";

/// A post's block up to its identifier.
pub const THREAD_OPEN: &'static str = r#"<div class="thread" id="thread_"#;

/// From a post's identifier to its second occurrence.
pub const POST_OPEN: &'static str = "\">\n<div class=\"post op\" id=\"op_";

/// From a post's identifier to its subject.
pub const SUBJECT_OPEN: &'static str = "\">\n<p class=\"intro\"><span class=\"subject\">";

/// From a post's subject to its author's name.
pub const NAME_OPEN: &'static str = r#"</span> <span class="name">"#;

/// From a post's author's name to its body.
pub const BODY_OPEN: &'static str = "</span></p>\n<div class=\"body\">";

/// From a post's body to its image.
pub const BODY_CLOSE: &'static str = "</div>\n";

/// From a post's image to the end of its block.
pub const THREAD_CLOSE: &'static str = "\n<hr>\n</div>\n</div>\n";

/// An image's element up to the image's path.
pub const IMAGE_OPEN: &'static str = r#"<div class="image"><img src=""#;

/// An image's element after the image's path.
pub const IMAGE_CLOSE: &'static str = r#"" alt="image" style="max-width:200px;"></div>"#;

/// The element that shows a post's image: nothing for a post without one.
pub open spec fn image_html(url: Option<Seq<char>>) -> Seq<char> {
    match url {
        Some(url) => IMAGE_OPEN@ + html_safe(url) + IMAGE_CLOSE@,
        None => Seq::empty(),
    }
}

/// The block of one post: the fixed markup around the post's identifier, its
/// escaped subject, name and body, and its image.
pub open spec fn post_html(post: PostView) -> Seq<char> {
    THREAD_OPEN@ + hyphenated(post.id) + POST_OPEN@ + hyphenated(post.id) + SUBJECT_OPEN@
        + html_safe(post.subject) + NAME_OPEN@ + html_safe(post.name) + BODY_OPEN@ + html_safe(
        post.body,
    ) + BODY_CLOSE@ + image_html(post.image_url) + THREAD_CLOSE@
}

/// The blocks of `posts`, one after the other in their order.
pub open spec fn posts_html(posts: Seq<PostView>) -> Seq<char>
    decreases posts.len(),
{
    if posts.len() == 0 {
        Seq::empty()
    } else {
        posts_html(posts.drop_last()) + post_html(posts.last())
    }
}

/// The page that lists `posts` in their order.
pub open spec fn page_html(posts: Seq<PostView>) -> Seq<char> {
    PAGE_HEAD@ + posts_html(posts) + PAGE_TAIL@
}

/// Nothing that varies from post to post can act as markup in a post's block:
/// neither the identifier nor what the visitor wrote, in the form in which
/// each enters the block, holds a character that opens or closes a tag, ends a
/// quoted attribute value or closes an element.
pub proof fn lemma_block_inserts_hold_no_markup(post: PostView)
    ensures
        forall|i: int| 0 <= i < 36 ==> !is_markup(#[trigger] hyphenated(post.id)[i]),
        forall|i: int|
            0 <= i < html_safe(post.subject).len() ==> !is_markup(
                #[trigger] html_safe(post.subject)[i],
            ),
        forall|i: int|
            0 <= i < html_safe(post.name).len() ==> !is_markup(#[trigger] html_safe(post.name)[i]),
        forall|i: int|
            0 <= i < html_safe(post.body).len() ==> !is_markup(#[trigger] html_safe(post.body)[i]),
        post.image_url matches Some(url) ==> forall|i: int|
            0 <= i < html_safe(url).len() ==> !is_markup(#[trigger] html_safe(url)[i]),
{
    lemma_hyphenated_chars(post.id);
    lemma_escaped_has_no_markup(post.subject);
    lemma_escaped_has_no_markup(post.name);
    lemma_escaped_has_no_markup(post.body);
    if let Some(url) = post.image_url {
        lemma_escaped_has_no_markup(url);
    }
}

/// The blocks of two runs of posts, one after the other, are the blocks of
/// the runs joined.
pub proof fn lemma_blocks_of_joined_runs(first: Seq<PostView>, second: Seq<PostView>)
    ensures
        posts_html(first + second) == posts_html(first) + posts_html(second),
    decreases second.len(),
{
    if second.len() == 0 {
        assert(first + second =~= first);
        assert(posts_html(first) + posts_html(second) =~= posts_html(first));
    } else {
        lemma_blocks_of_joined_runs(first, second.drop_last());
        assert((first + second).drop_last() =~= first + second.drop_last());
        assert((first + second).last() == second.last());
        assert(posts_html(first + second) =~= posts_html(first) + posts_html(second));
    }
}

/// Writes the block of one post.
pub fn render_post(post: &Post) -> (html: String)
    ensures
        html@ == post_html(post@),
{
    let id = id_text(post.id());
    let mut html = THREAD_OPEN.to_owned();
    html.append(id.as_str());
    html.append(POST_OPEN);
    html.append(id.as_str());
    html.append(SUBJECT_OPEN);
    html.append(encode_html(post.subject()).as_str());
    html.append(NAME_OPEN);
    html.append(encode_html(post.name()).as_str());
    html.append(BODY_OPEN);
    html.append(encode_html(post.body()).as_str());
    html.append(BODY_CLOSE);
    let ghost before = html@;
    match post.image_url() {
        Some(url) => {
            html.append(IMAGE_OPEN);
            html.append(encode_html(url).as_str());
            html.append(IMAGE_CLOSE);
        },
        None => {},
    }
    assert(html@ =~= before + image_html(post@.image_url));
    html.append(THREAD_CLOSE);
    html
}

/// Writes the page that lists `posts` in their order.
pub fn render_page(posts: &Vec<Post>) -> (html: String)
    ensures
        html@ == page_html(views(posts@)),
{
    let mut html = PAGE_HEAD.to_owned();
    let mut done: usize = 0;
    while done < posts.len()
        invariant
            done <= posts@.len(),
            html@ == PAGE_HEAD@ + posts_html(views(posts@).subrange(0, done as int)),
        decreases posts@.len() - done,
    {
        let block = render_post(&posts[done]);
        html.append(block.as_str());
        proof {
            let before = views(posts@).subrange(0, done as int);
            let after = views(posts@).subrange(0, done + 1);
            assert(after.drop_last() =~= before);
            assert(after.last() == posts@[done as int]@);
            assert(html@ =~= PAGE_HEAD@ + posts_html(after));
        }
        done = done + 1;
    }
    assert(views(posts@).subrange(0, done as int) =~= views(posts@));
    html.append(PAGE_TAIL);
    html
}

} // verus!
