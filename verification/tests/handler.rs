use imageboard::handler::{handle_post, homepage, publish};
use imageboard::journal::ErrorLog;
use imageboard::post::Post;
use imageboard::render::{render_page, render_post, PAGE_HEAD, PAGE_TAIL};
use imageboard::reply::{Rejection, Reply};
use imageboard::store::PostStore;
use imageboard::upload::{
    accept_part, image_saved, Failure, Part, PartOutcome, PostData, SaveReport,
};

const PNG: [u8; 69] = [
    137, 80, 78, 71, 13, 10, 26, 10, 0, 0, 0, 13, 73, 72, 68, 82, 0, 0, 0, 1, 0, 0, 0, 1, 8, 2, 0,
    0, 0, 144, 119, 83, 222, 0, 0, 0, 12, 73, 68, 65, 84, 120, 156, 99, 248, 207, 192, 0, 0, 3, 1,
    1, 0, 201, 254, 146, 239, 0, 0, 0, 0, 73, 69, 78, 68, 174, 66, 96, 130,
];

fn part(name: &str, filename: Option<&str>, value: &[u8]) -> Part {
    Part { name: name.to_string(), filename: filename.map(|f| f.to_string()), data: value.to_vec() }
}

/// Reads a form as the service does: part by part, with a disk that keeps
/// what is written to it until it is told to delete it, and ends the
/// submission. Returns the answer, the files left on disk and the error log.
fn submit(store: &mut PostStore, parts: Vec<Part>) -> (Reply, Vec<String>, Vec<String>) {
    let mut log = ErrorLog::new();
    let mut on_disk: Vec<String> = Vec::new();
    let upload = read(&mut log, &mut on_disk, parts);
    let answer = handle_post(store, upload);
    for path in &answer.remove {
        on_disk.retain(|kept| kept != path);
    }
    (answer.reply, on_disk, log.drain())
}

fn read(
    log: &mut ErrorLog,
    on_disk: &mut Vec<String>,
    parts: Vec<Part>,
) -> Result<PostData, Failure> {
    let mut data = PostData::new();
    for p in parts {
        data = match accept_part(data, p) {
            PartOutcome::Next(next) => next,
            PartOutcome::Reject(failure) => return Err(failure),
            PartOutcome::Save(next, image, bytes) => {
                let path = image.disk_path();
                let decodes = opens_as_image(&path, &bytes);
                on_disk.push(path);
                image_saved(log, next, image, SaveReport::Written(decodes))?
            }
        };
    }
    Ok(data)
}

/// Whether a file at `path` that holds `bytes` decodes as an image of the
/// type that the path's extension stands for.
fn opens_as_image(path: &str, bytes: &[u8]) -> bool {
    match image::ImageFormat::from_path(path) {
        Ok(format) => image::load_from_memory_with_format(bytes, format).is_ok(),
        Err(_) => false,
    }
}

fn refusal(why: Rejection) -> Failure {
    Failure { rejection: why, remove: Vec::new() }
}

fn abc() -> Vec<Part> {
    vec![part("name", None, b"a"), part("subject", None, b"b"), part("body", None, b"c")]
}

#[test]
fn submission_without_file_is_accepted_and_listed_first() {
    let mut store = PostStore::new();
    store.append(Post::new(1, "x".into(), "y".into(), "z".into(), None).unwrap());
    let (reply, on_disk, log) = submit(&mut store, abc());
    assert_eq!(reply.status(), 303);
    assert_eq!(reply.location(), Some("/"));
    assert!(on_disk.is_empty());
    assert!(log.is_empty());
    let listing = store.snapshot();
    assert_eq!(listing.len(), 2);
    assert_eq!(listing[0].name(), "a");
    assert_eq!(listing[0].subject(), "b");
    assert_eq!(listing[0].body(), "c");
    assert_eq!(listing[0].image_url(), None);
    assert_eq!(listing[1].id(), 1);
}

#[test]
fn submission_with_a_blank_field_is_refused() {
    let blanks: [&[u8]; 4] = [b"", b" ", b"\t \r\n", "\u{3000}\u{00a0}".as_bytes()];
    for blank in blanks {
        for field in ["name", "subject", "body"] {
            let mut store = PostStore::new();
            let mut parts = abc();
            parts.push(part(field, None, blank));
            let (reply, on_disk, _) = submit(&mut store, parts);
            assert_eq!(reply.status(), 400);
            assert_eq!(reply.body(), "Name, Subject, and Body are required");
            assert_eq!(store.len(), 0);
            assert!(on_disk.is_empty());
        }
    }
}

#[test]
fn submission_with_a_missing_field_is_refused() {
    for missing in 0..3 {
        let mut store = PostStore::new();
        let mut parts = abc();
        parts.remove(missing);
        let (reply, on_disk, _) = submit(&mut store, parts);
        assert_eq!(reply.status(), 400);
        assert_eq!(reply.body(), "Name, Subject, and Body are required");
        assert_eq!(store.len(), 0);
        assert!(on_disk.is_empty());
    }
    let mut store = PostStore::new();
    let (reply, _, _) = submit(&mut store, Vec::new());
    assert_eq!(reply.status(), 400);
    assert_eq!(store.len(), 0);
}

#[test]
fn submission_with_a_valid_png_is_accepted() {
    let mut store = PostStore::new();
    let mut parts = abc();
    parts.push(part("file", Some("pic.png"), &PNG));
    let (reply, on_disk, _) = submit(&mut store, parts);
    assert_eq!(reply.status(), 303);
    assert_eq!(on_disk.len(), 1);
    let listing = store.snapshot();
    assert_eq!(listing.len(), 1);
    let url = listing[0].image_url().unwrap().to_string();
    assert!(url.starts_with("/uploads/images/"));
    assert!(url.ends_with(".png"));
    assert_eq!(format!(".{}", url), on_disk[0]);
    assert!(opens_as_image(&on_disk[0], &PNG));
}

#[test]
fn submission_with_a_png_that_is_no_image_is_refused() {
    let mut store = PostStore::new();
    let mut parts = abc();
    parts.push(part("file", Some("pic.png"), b"these bytes are no image"));
    let (reply, on_disk, _) = submit(&mut store, parts);
    assert_eq!(reply.status(), 400);
    assert_eq!(reply.body(), "Invalid image file");
    assert!(on_disk.is_empty());
    assert_eq!(store.len(), 0);
}

#[test]
fn submission_with_an_exe_is_refused() {
    let contents: [&[u8]; 3] = [b"MZ\x90\x00", &PNG, b"x"];
    for content in contents {
        let mut store = PostStore::new();
        let mut parts = abc();
        parts.push(part("file", Some("setup.exe"), content));
        let (reply, on_disk, _) = submit(&mut store, parts);
        assert_eq!(reply.status(), 400);
        assert_eq!(reply.body(), "Unsupported image format");
        assert!(on_disk.is_empty());
        assert_eq!(store.len(), 0);
    }
}

#[test]
fn blank_field_leaves_no_file_behind() {
    for blank in ["name", "subject", "body"] {
        let mut store = PostStore::new();
        let mut parts = vec![part("file", Some("pic.png"), &PNG)];
        parts.extend(abc());
        parts.push(part(blank, None, b"  "));
        let (reply, on_disk, _) = submit(&mut store, parts);
        assert_eq!(reply.status(), 400);
        assert_eq!(reply.body(), "Name, Subject, and Body are required");
        assert!(on_disk.is_empty());
        assert_eq!(store.len(), 0);
    }
}

#[test]
fn refused_file_leaves_no_earlier_file_behind() {
    let mut store = PostStore::new();
    let mut parts = abc();
    parts.push(part("file", Some("pic.png"), &PNG));
    parts.push(part("file", Some("pic.gif"), b"no gif"));
    let (reply, on_disk, _) = submit(&mut store, parts);
    assert_eq!(reply.status(), 400);
    assert_eq!(reply.body(), "Invalid image file");
    assert!(on_disk.is_empty());
    assert_eq!(store.len(), 0);
}

#[test]
fn refusal_stops_the_reading_of_the_form() {
    let mut store = PostStore::new();
    let parts = vec![
        part("file", Some("setup.exe"), b"MZ"),
        part("name", None, b"a"),
        part("subject", None, b"b"),
        part("body", None, b"c"),
    ];
    let (reply, _, _) = submit(&mut store, parts);
    assert_eq!(reply.status(), 400);
    assert_eq!(store.len(), 0);
}

#[test]
fn a_hundred_submissions_make_a_hundred_posts() {
    let mut store = PostStore::new();
    for i in 0..100 {
        let parts = vec![
            part("name", None, format!("author {}", i).as_bytes()),
            part("subject", None, b"s"),
            part("body", None, b"b"),
        ];
        let (reply, _, _) = submit(&mut store, parts);
        assert_eq!(reply.status(), 303);
    }
    let listing = store.snapshot();
    assert_eq!(listing.len(), 100);
    for (place, post) in listing.iter().enumerate() {
        assert_eq!(post.name(), format!("author {}", 99 - place));
    }
    let mut ids: Vec<u128> = listing.iter().map(|p| p.id()).collect();
    ids.sort();
    ids.dedup();
    assert_eq!(ids.len(), 100);
}

#[test]
fn fresh_identifiers_are_version_four() {
    let mut store = PostStore::new();
    for _ in 0..20 {
        let (reply, _, _) = submit(&mut store, abc());
        assert_eq!(reply.status(), 303);
    }
    for post in store.snapshot() {
        assert_eq!((post.id() >> 76) & 0xf, 4);
        assert_eq!((post.id() >> 62) & 0x3, 2);
    }
}

#[test]
fn refusal_while_reading_is_passed_on() {
    let mut store = PostStore::new();
    store.append(Post::new(1, "x".into(), "y".into(), "z".into(), None).unwrap());
    for why in [
        Rejection::InvalidForm,
        Rejection::BrokenChunk,
        Rejection::UnsupportedFormat,
        Rejection::InvalidImage,
        Rejection::SaveFailed,
        Rejection::WriteFailed,
    ] {
        let answer = handle_post(&mut store, Err(refusal(why)));
        assert_eq!(answer.reply.status(), why.status());
        assert_eq!(answer.reply.body(), why.reason());
        assert!(answer.remove.is_empty());
        assert_eq!(store.len(), 1);
    }
}

#[test]
fn publish_uses_the_given_identifier() {
    let mut store = PostStore::new();
    let data = PostData {
        name: "a".to_string(),
        subject: "b".to_string(),
        body: "c".to_string(),
        image_path: Some("/uploads/images/i.png".to_string()),
        files: vec!["./uploads/images/i.png".to_string()],
    };
    let answer = publish(&mut store, data, 42);
    assert_eq!(answer.reply.status(), 303);
    assert!(answer.remove.is_empty());
    let listing = store.snapshot();
    assert_eq!(listing.len(), 1);
    assert_eq!(listing[0].id(), 42);
    assert_eq!(listing[0].image_url(), Some("/uploads/images/i.png"));
    let incomplete = PostData {
        name: "a".to_string(),
        subject: String::new(),
        body: "c".to_string(),
        image_path: Some("/uploads/images/j.png".to_string()),
        files: vec!["./uploads/images/h.png".to_string(), "./uploads/images/j.png".to_string()],
    };
    let answer = publish(&mut store, incomplete, 43);
    assert_eq!(answer.reply.status(), 400);
    assert_eq!(answer.reply.body(), "Name, Subject, and Body are required");
    assert_eq!(
        answer.remove,
        vec!["./uploads/images/h.png".to_string(), "./uploads/images/j.png".to_string()]
    );
    assert_eq!(store.len(), 1);
}

#[test]
fn post_block_is_rendered_exactly() {
    let post = Post::new(
        0x67e55044_10b1_426f_9247_bb680e5fe0c8,
        "anon".to_string(),
        "hello".to_string(),
        "first post".to_string(),
        None,
    )
    .unwrap();
    let expected = r#"<div class="thread" id="thread_67e55044-10b1-426f-9247-bb680e5fe0c8">
<div class="post op" id="op_67e55044-10b1-426f-9247-bb680e5fe0c8">
<p class="intro"><span class="subject">hello</span> <span class="name">anon</span></p>
<div class="body">first post</div>

<hr>
</div>
</div>
"#;
    assert_eq!(render_post(&post), expected);
}

#[test]
fn post_block_with_image_is_rendered_exactly() {
    let post = Post::new(
        1,
        "anon".to_string(),
        "hello".to_string(),
        "first post".to_string(),
        Some("/uploads/images/a.png".to_string()),
    )
    .unwrap();
    let expected = r#"<div class="thread" id="thread_00000000-0000-0000-0000-000000000001">
<div class="post op" id="op_00000000-0000-0000-0000-000000000001">
<p class="intro"><span class="subject">hello</span> <span class="name">anon</span></p>
<div class="body">first post</div>
<div class="image"><img src="&#x2F;uploads&#x2F;images&#x2F;a.png" alt="image" style="max-width:200px;"></div>
<hr>
</div>
</div>
"#;
    assert_eq!(render_post(&post), expected);
}

#[test]
fn empty_page_is_rendered_exactly() {
    let expected = r#"<!doctype html>
<html lang="en">
<head>
<meta charset="utf-8">
<title>No DB with Images</title>
<meta name="viewport" content="width=device-width, initial-scale=1">
</head>
<body>
<h1>No DB Minimal Board with Images</h1>
<form name="post" enctype="multipart/form-data" action="/post" method="post" style="margin-bottom:20px;">
    <input type="text" name="name" placeholder="Name" required style="display:block;margin-bottom:10px;">
    <input type="text" name="subject" placeholder="Subject" required style="display:block;margin-bottom:10px;">
    <textarea name="body" rows="5" cols="35" placeholder="Comment" required style="display:block;width:300px;height:100px;margin-bottom:10px;"></textarea>
    <input type="file" name="file" accept=".jpg,.jpeg,.png,.gif,.webp" style="display:block;margin-bottom:10px;">
    <input type="submit" value="Post">
</form>
<hr>

</body>
</html>"#;
    let reply = homepage(&PostStore::new());
    assert_eq!(reply.status(), 200);
    assert_eq!(reply.content_type(), Some("text/html"));
    assert_eq!(reply.body(), expected);
    assert_eq!(render_page(&Vec::new()), expected);
    assert_eq!(format!("{}{}", PAGE_HEAD, PAGE_TAIL), expected);
}

#[test]
fn page_lists_posts_newest_first() {
    let mut store = PostStore::new();
    store.append(Post::new(1, "n1".into(), "s1".into(), "b1".into(), None).unwrap());
    store.append(Post::new(2, "n2".into(), "s2".into(), "b2".into(), None).unwrap());
    let reply = homepage(&store);
    let listing = store.snapshot();
    let expected = format!(
        "{}{}{}{}",
        PAGE_HEAD,
        render_post(&listing[0]),
        render_post(&listing[1]),
        PAGE_TAIL
    );
    assert_eq!(reply.body(), expected);
    let page = reply.body();
    let second = page.find("thread_00000000-0000-0000-0000-000000000002").unwrap();
    let first = page.find("thread_00000000-0000-0000-0000-000000000001").unwrap();
    assert!(second < first);
    assert_eq!(render_page(&listing), expected);
}

#[test]
fn script_in_a_name_is_escaped() {
    let mut store = PostStore::new();
    let parts = vec![
        part("name", None, b"<script>alert(1)</script>"),
        part("subject", None, b"\"quoted\" & 'single'"),
        part("body", None, b"a < b > c"),
    ];
    let (reply, _, _) = submit(&mut store, parts);
    assert_eq!(reply.status(), 303);
    let reply = homepage(&store);
    let page = reply.body();
    assert!(!page.contains("<script>"));
    assert!(!page.contains("</script>"));
    assert!(page.contains(
        "<span class=\"name\">&lt;script&gt;alert(1)&lt;&#x2F;script&gt;</span>"
    ));
    assert!(page.contains(
        "<span class=\"subject\">&quot;quoted&quot; &amp; &#x27;single&#x27;</span>"
    ));
    assert!(page.contains("<div class=\"body\">a &lt; b &gt; c</div>"));
}

#[test]
fn text_without_special_characters_is_rendered_as_it_is() {
    let post = Post::new(3, "J\u{fc}rgen".into(), "s".into(), "line one\nline two".into(), None)
        .unwrap();
    let block = render_post(&post);
    assert!(block.contains("<span class=\"name\">J\u{fc}rgen</span>"));
    assert!(block.contains("<div class=\"body\">line one\nline two</div>"));
}
