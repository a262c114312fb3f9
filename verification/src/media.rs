//! Which uploads are admitted as images, and under which name they are kept.

use crate::ident::{hyphenated, id_text, is_id_char, lemma_hyphenated_chars};
use crate::text::same_text;
use vstd::prelude::*;
use vstd::string::*;

verus! {

/// The directory, relative to where the service runs, that holds the admitted
/// images.
pub const IMAGE_UPLOAD_DIR: &'static str = "./uploads/images/";

/// The public path under which the directory of images is served.
pub const IMAGE_URL_PREFIX: &'static str = "/uploads/images/";

/// The media type that the extension of `filename` suggests, as its top-level
/// type and its subtype. A name without a known extension suggests
/// `application/octet-stream`.
pub uninterp spec fn guessed_type(filename: Seq<char>) -> (Seq<char>, Seq<char>);

/// Whether `subtype` is one of the subtypes that the board accepts: `jpeg`,
/// `jpg`, `png`, `gif` and `webp`.
pub open spec fn is_allowed_subtype(subtype: Seq<char>) -> bool {
    ||| subtype == "jpeg"@
    ||| subtype == "jpg"@
    ||| subtype == "png"@
    ||| subtype == "gif"@
    ||| subtype == "webp"@
}

/// Whether a file of media type `top`/`subtype` is admitted: an image of an
/// accepted subtype.
pub open spec fn is_admitted(top: Seq<char>, subtype: Seq<char>) -> bool {
    top == "image"@ && is_allowed_subtype(subtype)
}

/// Calls `mime_guess::from_path`, takes the guess with
/// `MimeGuess::first_or_octet_stream`, and reads the media type's two parts
/// with `Mime::type_` and `Mime::subtype`. No disk is touched. Trusted: the two
/// parts depend on the file name alone.
#[verifier::external_body]
fn guess_type(filename: &str) -> (guess: (String, String))
    ensures
        (guess.0@, guess.1@) == guessed_type(filename@),
{
    let mime = mime_guess::from_path(filename).first_or_octet_stream();
    (mime.type_().as_str().to_owned(), mime.subtype().as_str().to_owned())
}

/// Says whether `subtype` is one of the subtypes that the board accepts.
pub fn is_allowed(subtype: &str) -> (yes: bool)
    ensures
        yes == is_allowed_subtype(subtype@),
{
    same_text(subtype, "jpeg") || same_text(subtype, "jpg") || same_text(subtype, "png")
        || same_text(subtype, "gif") || same_text(subtype, "webp")
}

/// Says whether a file of media type `top`/`subtype` is admitted.
pub fn admits(top: &str, subtype: &str) -> (yes: bool)
    ensures
        yes == is_admitted(top@, subtype@),
{
    same_text(top, "image") && is_allowed(subtype)
}

/// The name under which an image with identifier `id` and subtype `subtype`
/// is kept: the hyphenated identifier, a dot, and the subtype.
pub open spec fn stored_name(id: u128, subtype: Seq<char>) -> Seq<char> {
    hyphenated(id) + seq!['.'] + subtype
}

/// What describes a kept image: its identifier and its subtype.
pub struct StoredImageView {
    pub id: u128,
    pub subtype: Seq<char>,
}

impl StoredImageView {
    /// The file's name.
    pub open spec fn file_name(self) -> Seq<char> {
        stored_name(self.id, self.subtype)
    }

    /// The file's place on disk.
    pub open spec fn disk_path(self) -> Seq<char> {
        IMAGE_UPLOAD_DIR@ + self.file_name()
    }

    /// The path under which the file is served.
    pub open spec fn public_path(self) -> Seq<char> {
        IMAGE_URL_PREFIX@ + self.file_name()
    }
}

/// An image that the board keeps, or is about to keep, on disk. Its subtype is
/// always an accepted one, and nothing of what the client called the file
/// enters its name.
pub struct StoredImage {
    id: u128,
    subtype: String,
}

impl View for StoredImage {
    type V = StoredImageView;

    closed spec fn view(&self) -> StoredImageView {
        StoredImageView { id: self.id, subtype: self.subtype@ }
    }
}

impl StoredImage {
    #[verifier::type_invariant]
    spec fn has_allowed_subtype(self) -> bool {
        is_allowed_subtype(self.subtype@)
    }

    /// Describes the image with identifier `id` and subtype `subtype`, unless
    /// the subtype is not an accepted one.
    pub fn new(id: u128, subtype: &str) -> (made: Option<StoredImage>)
        ensures
            made is Some <==> is_allowed_subtype(subtype@),
            made is Some ==> made->0@ == (StoredImageView { id, subtype: subtype@ }),
    {
        if is_allowed(subtype) {
            Some(StoredImage { id, subtype: subtype.to_owned() })
        } else {
            None
        }
    }

    /// The identifier in the file's name.
    pub fn id(&self) -> (id: u128)
        ensures
            id == self@.id,
    {
        self.id
    }

    /// The subtype, which is an accepted one.
    pub fn subtype(&self) -> (subtype: &str)
        ensures
            subtype@ == self@.subtype,
            is_allowed_subtype(subtype@),
    {
        proof {
            use_type_invariant(self);
        }
        self.subtype.as_str()
    }

    /// The file's name.
    pub fn file_name(&self) -> (name: String)
        ensures
            name@ == self@.file_name(),
    {
        let mut name = id_text(self.id);
        name.append(".");
        name.append(self.subtype.as_str());
        proof {
            reveal_strlit(".");
            assert("."@ =~= seq!['.']);
        }
        name
    }

    /// The file's place on disk.
    pub fn disk_path(&self) -> (path: String)
        ensures
            path@ == self@.disk_path(),
    {
        let mut path = IMAGE_UPLOAD_DIR.to_owned();
        path.append(self.file_name().as_str());
        path
    }

    /// The path under which the file is served.
    pub fn public_path(&self) -> (path: String)
        ensures
            path@ == self@.public_path(),
    {
        let mut path = IMAGE_URL_PREFIX.to_owned();
        path.append(self.file_name().as_str());
        path
    }
}

/// Whether `c` may occur in the name of a kept image: a character of an
/// identifier, a dot, or a lower-case letter.
pub open spec fn is_name_char(c: char) -> bool {
    is_id_char(c) || c == '.' || 'a' <= c <= 'z'
}

/// The name of a kept image cannot leave the directory of images: it is made
/// of the identifier, one dot at place 36 and the accepted subtype, so it holds
/// no separator of path components and no second dot.
pub proof fn lemma_stored_name_is_flat(id: u128, subtype: Seq<char>)
    requires
        is_allowed_subtype(subtype),
    ensures
        stored_name(id, subtype).len() == 37 + subtype.len(),
        stored_name(id, subtype).subrange(0, 36) == hyphenated(id),
        stored_name(id, subtype)[36] == '.',
        stored_name(id, subtype).subrange(37, 37 + subtype.len() as int) == subtype,
        forall|i: int|
            0 <= i < stored_name(id, subtype).len() ==> is_name_char(
                #[trigger] stored_name(id, subtype)[i],
            ),
        forall|i: int|
            0 <= i < stored_name(id, subtype).len() && i != 36
                ==> #[trigger] stored_name(id, subtype)[i] != '.',
        forall|i: int|
            0 <= i < stored_name(id, subtype).len() ==> #[trigger] stored_name(id, subtype)[i]
                != '/' && stored_name(id, subtype)[i] != '\\',
{
    let name = stored_name(id, subtype);
    lemma_hyphenated_chars(id);
    reveal_strlit("jpeg");
    reveal_strlit("jpg");
    reveal_strlit("png");
    reveal_strlit("gif");
    reveal_strlit("webp");
    assert(name.subrange(0, 36) =~= hyphenated(id));
    assert(name.subrange(37, 37 + subtype.len() as int) =~= subtype);
    assert forall|i: int| 0 <= i < name.len() implies is_name_char(#[trigger] name[i]) && (i != 36
        ==> name[i] != '.') by {
        if i < 36 {
            assert(name[i] == hyphenated(id)[i]);
        } else if i > 36 {
            assert(name[i] == subtype[i - 37]);
        }
    }
}

/// The public path of a kept image is its place on disk without the leading
/// dot: the directory of images, served under its own name, shows the file
/// that was written.
pub proof fn lemma_public_path_names_the_file(image: StoredImageView)
    ensures
        image.disk_path() == seq!['.'] + image.public_path(),
{
    reveal_strlit("./uploads/images/");
    reveal_strlit("/uploads/images/");
    assert(IMAGE_UPLOAD_DIR@ =~= seq!['.'] + IMAGE_URL_PREFIX@);
    assert(image.disk_path() =~= seq!['.'] + image.public_path());
}

/// Looks at the name that the client gave a file, and returns the subtype
/// under which the file is admitted, if it is: the name's extension must stand
/// for an image of an accepted subtype. What the file holds plays no part.
pub fn admit_filename(filename: &str) -> (subtype: Option<String>)
    ensures
        subtype is Some <==> is_admitted(guessed_type(filename@).0, guessed_type(filename@).1),
        subtype is Some ==> subtype->0@ == guessed_type(filename@).1,
{
    let (top, subtype) = guess_type(filename);
    if admits(top.as_str(), subtype.as_str()) {
        Some(subtype)
    } else {
        None
    }
}

} // verus!
