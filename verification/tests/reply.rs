use imageboard::reply::{Rejection, Reply};

#[test]
fn client_faults_are_400() {
    for why in [
        Rejection::InvalidForm,
        Rejection::BrokenChunk,
        Rejection::UnsupportedFormat,
        Rejection::InvalidImage,
        Rejection::MissingFields,
    ] {
        assert_eq!(why.status(), 400);
        assert_eq!(Reply::Refused(why).status(), 400);
    }
}

#[test]
fn disk_faults_are_500() {
    assert_eq!(Rejection::SaveFailed.status(), 500);
    assert_eq!(Rejection::WriteFailed.status(), 500);
    assert_eq!(Reply::Refused(Rejection::WriteFailed).status(), 500);
}

#[test]
fn each_rejection_has_its_reason() {
    assert_eq!(Rejection::InvalidForm.reason(), "Invalid form data");
    assert_eq!(Rejection::BrokenChunk.reason(), "Error reading form data");
    assert_eq!(Rejection::UnsupportedFormat.reason(), "Unsupported image format");
    assert_eq!(Rejection::InvalidImage.reason(), "Invalid image file");
    assert_eq!(Rejection::MissingFields.reason(), "Name, Subject, and Body are required");
    assert_eq!(Rejection::SaveFailed.reason(), "Failed to save image");
    assert_eq!(Rejection::WriteFailed.reason(), "Failed to write image");
}

#[test]
fn refusal_answers_in_plain_text() {
    let reply = Reply::Refused(Rejection::InvalidImage);
    assert_eq!(reply.body(), "Invalid image file");
    assert_eq!(reply.location(), None);
    assert_eq!(reply.content_type(), Some("text/plain; charset=utf-8"));
}

#[test]
fn accepted_submission_redirects_to_the_listing() {
    let reply = Reply::SeeListing;
    assert_eq!(reply.status(), 303);
    assert_eq!(reply.location(), Some("/"));
    assert_eq!(reply.body(), "");
    assert_eq!(reply.content_type(), None);
}

#[test]
fn page_is_html() {
    let reply = Reply::Page("<p>x</p>".to_string());
    assert_eq!(reply.status(), 200);
    assert_eq!(reply.body(), "<p>x</p>");
    assert_eq!(reply.location(), None);
    assert_eq!(reply.content_type(), Some("text/html"));
}
