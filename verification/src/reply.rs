//! What the board answers: the page, a redirect to it, or a refusal with its
//! reason.

use vstd::prelude::*;

verus! {

/// Why a submission was turned down.
#[derive(Clone, Copy, PartialEq, Eq, Debug, Structural)]
pub enum Rejection {
    /// The form could not be split into its parts.
    InvalidForm,
    /// The bytes of a part could not be read to their end.
    BrokenChunk,
    /// A file was sent whose name does not stand for an accepted image type.
    UnsupportedFormat,
    /// A file was sent under an accepted name, but its bytes are no such image.
    InvalidImage,
    /// The name, the subject or the body is missing or blank.
    MissingFields,
    /// The file for an image could not be created.
    SaveFailed,
    /// The bytes of an image could not be written to its file.
    WriteFailed,
}

impl Rejection {
    /// Whether the fault lies with what the client sent, and not with the
    /// disk of the server.
    pub open spec fn is_client_fault(self) -> bool {
        !(self is SaveFailed || self is WriteFailed)
    }

    /// The status code of the refusal: 400 for a client's fault, 500 otherwise.
    pub open spec fn status_of(self) -> u16 {
        if self.is_client_fault() {
            400
        } else {
            500
        }
    }

    /// The short text that tells the client the reason.
    pub open spec fn reason_of(self) -> Seq<char> {
        match self {
            Rejection::InvalidForm => "Invalid form data"@,
            Rejection::BrokenChunk => "Error reading form data"@,
            Rejection::UnsupportedFormat => "Unsupported image format"@,
            Rejection::InvalidImage => "Invalid image file"@,
            Rejection::MissingFields => "Name, Subject, and Body are required"@,
            Rejection::SaveFailed => "Failed to save image"@,
            Rejection::WriteFailed => "Failed to write image"@,
        }
    }

    /// The status code of the refusal.
    pub fn status(&self) -> (code: u16)
        ensures
            code == self.status_of(),
    {
        match self {
            Rejection::SaveFailed | Rejection::WriteFailed => 500,
            _ => 400,
        }
    }

    /// The reason as text.
    pub fn reason(&self) -> (text: &'static str)
        ensures
            text@ == self.reason_of(),
    {
        match self {
            Rejection::InvalidForm => "Invalid form data",
            Rejection::BrokenChunk => "Error reading form data",
            Rejection::UnsupportedFormat => "Unsupported image format",
            Rejection::InvalidImage => "Invalid image file",
            Rejection::MissingFields => "Name, Subject, and Body are required",
            Rejection::SaveFailed => "Failed to save image",
            Rejection::WriteFailed => "Failed to write image",
        }
    }
}

/// An answer to a request.
pub enum Reply {
    /// The listing, as an HTML document.
    Page(String),
    /// The submission was accepted: the client is sent on to the listing.
    SeeListing,
    /// The submission was turned down.
    Refused(Rejection),
}

impl Reply {
    /// The status code of the answer: 200 with the page, 303 after an accepted
    /// submission, and the code of the refusal otherwise.
    pub open spec fn status_of(self) -> u16 {
        match self {
            Reply::Page(_) => 200,
            Reply::SeeListing => 303,
            Reply::Refused(why) => why.status_of(),
        }
    }

    /// The body of the answer: the page, nothing, or the reason of the
    /// refusal.
    pub open spec fn body_of(self) -> Seq<char> {
        match self {
            Reply::Page(html) => html@,
            Reply::SeeListing => Seq::empty(),
            Reply::Refused(why) => why.reason_of(),
        }
    }

    /// Where the client is sent: to the listing after an accepted submission,
    /// nowhere otherwise.
    pub open spec fn location_of(self) -> Option<Seq<char>> {
        match self {
            Reply::SeeListing => Some("/"@),
            _ => None,
        }
    }

    /// The status code of the answer.
    pub fn status(&self) -> (code: u16)
        ensures
            code == self.status_of(),
    {
        match self {
            Reply::Page(_) => 200,
            Reply::SeeListing => 303,
            Reply::Refused(why) => why.status(),
        }
    }

    /// The body of the answer.
    pub fn body(&self) -> (text: &str)
        ensures
            text@ == self.body_of(),
    {
        match self {
            Reply::Page(html) => html.as_str(),
            Reply::SeeListing => {
                proof {
                    reveal_strlit("");
                }
                assert(""@ =~= Seq::<char>::empty());
                ""
            },
            Reply::Refused(why) => why.reason(),
        }
    }

    /// The path for the `Location` header, if the answer redirects.
    pub fn location(&self) -> (path: Option<&'static str>)
        ensures
            path is Some <==> self.location_of() is Some,
            path is Some ==> path->0@ == self.location_of()->0,
    {
        match self {
            Reply::SeeListing => Some("/"),
            _ => None,
        }
    }

    /// The media type of the body, if there is one: HTML for the page, plain
    /// text for a refusal.
    pub open spec fn content_type_of(self) -> Option<Seq<char>> {
        match self {
            Reply::Page(_) => Some("text/html"@),
            Reply::SeeListing => None,
            Reply::Refused(_) => Some("text/plain; charset=utf-8"@),
        }
    }

    /// The media type of the body, if there is one.
    pub fn content_type(&self) -> (media: Option<&'static str>)
        ensures
            media is Some <==> self.content_type_of() is Some,
            media is Some ==> media->0@ == self.content_type_of()->0,
    {
        match self {
            Reply::Page(_) => Some("text/html"),
            Reply::SeeListing => None,
            Reply::Refused(_) => Some("text/plain; charset=utf-8"),
        }
    }
}

} // verus!
