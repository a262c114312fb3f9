//! The reading of a submitted form, part by part.
//!
//! The program around the board reads the parts of the form and hands them
//! over one at a time, in the order of their arrival. For each part
//! [`accept_part`] says how to go on: with the next part, with the writing of
//! an image to disk, or not at all. After the writing of an image the program
//! reports how it went and whether the file decodes as an image, and
//! [`image_saved`] says whether the image stays.
//! Whenever a submission is turned down, the files that were written for it
//! are named for removal, so that none outlives the refusal.

use crate::ident::{fresh_id, is_random_id};
use crate::journal::{log_error, ErrorLog};
use crate::media::{
    admit_filename, guessed_type, is_admitted, is_allowed_subtype, StoredImage, StoredImageView,
};
use crate::reply::Rejection;
use crate::text::{field_text, read_field, same_text, texts};
use vstd::prelude::*;
use vstd::string::*;

verus! {

/// One part of a form, as plain mathematical values.
pub struct PartView {
    pub name: Seq<char>,
    pub filename: Option<Seq<char>>,
    pub data: Seq<u8>,
}

/// One named part of a submitted form: the field's name, the file name that
/// the client gave, if any, and all of the part's bytes.
pub struct Part {
    pub name: String,
    pub filename: Option<String>,
    pub data: Vec<u8>,
}

impl View for Part {
    type V = PartView;

    open spec fn view(&self) -> PartView {
        PartView {
            name: self.name@,
            filename: match self.filename {
                Some(filename) => Some(filename@),
                None => None,
            },
            data: self.data@,
        }
    }
}

/// A submission in the making, as plain mathematical values.
pub struct PostDataView {
    pub name: Seq<char>,
    pub subject: Seq<char>,
    pub body: Seq<char>,
    pub image_path: Option<Seq<char>>,
    pub files: Seq<Seq<char>>,
}

impl PostDataView {
    /// The submission of which nothing has been read yet.
    pub open spec fn blank() -> PostDataView {
        PostDataView {
            name: Seq::empty(),
            subject: Seq::empty(),
            body: Seq::empty(),
            image_path: None,
            files: Seq::empty(),
        }
    }

    /// Whether none of the three required texts is empty.
    pub open spec fn complete(self) -> bool {
        self.name.len() > 0 && self.subject.len() > 0 && self.body.len() > 0
    }

    /// The submission after the text `text` has arrived for the field `field`:
    /// a known field takes the text in place of what it held, an unknown one
    /// changes nothing.
    pub open spec fn with_text(self, field: Seq<char>, text: Seq<char>) -> PostDataView {
        if field == "name"@ {
            PostDataView { name: text, ..self }
        } else if field == "subject"@ {
            PostDataView { subject: text, ..self }
        } else if field == "body"@ {
            PostDataView { body: text, ..self }
        } else {
            self
        }
    }

    /// The submission after the image `image` has been kept: the image's
    /// public path is the submission's, and the image's file is one more of the
    /// files written for it.
    pub open spec fn with_image(self, image: StoredImageView) -> PostDataView {
        PostDataView {
            image_path: Some(image.public_path()),
            files: self.files.push(image.disk_path()),
            ..self
        }
    }
}

/// What has been gathered of one submission while its form is being read:
/// the three texts, the public path of its image once that is kept, and the
/// disk paths of the files written for it so far, oldest first.
pub struct PostData {
    pub name: String,
    pub subject: String,
    pub body: String,
    pub image_path: Option<String>,
    pub files: Vec<String>,
}

impl View for PostData {
    type V = PostDataView;

    open spec fn view(&self) -> PostDataView {
        PostDataView {
            name: self.name@,
            subject: self.subject@,
            body: self.body@,
            image_path: match self.image_path {
                Some(path) => Some(path@),
                None => None,
            },
            files: texts(self.files@),
        }
    }
}

impl PostData {
    /// The submission of which nothing has been read yet.
    pub fn new() -> (data: PostData)
        ensures
            data@ == PostDataView::blank(),
    {
        let data = PostData {
            name: String::new(),
            subject: String::new(),
            body: String::new(),
            image_path: None,
            files: Vec::new(),
        };
        assert(data@.files =~= Seq::<Seq<char>>::empty());
        data
    }

    /// Stores the text `text` that arrived for the field `field`: a known
    /// field takes it in place of what it held, an unknown one changes
    /// nothing.
    pub fn with_text(self, field: &str, text: String) -> (next: PostData)
        ensures
            next@ == self@.with_text(field@, text@),
    {
        let mut next = self;
        if same_text(field, "name") {
            next.name = text;
        } else if same_text(field, "subject") {
            next.subject = text;
        } else if same_text(field, "body") {
            next.body = text;
        }
        next
    }
}

impl Default for PostData {
    fn default() -> (data: PostData)
        ensures
            data@ == PostDataView::blank(),
    {
        PostData::new()
    }
}

/// What a part is to the board.
pub enum PartClass {
    /// A field of text: to be decoded, trimmed and stored under its name, if
    /// the name is a known one.
    Text,
    /// A file part without a file name: passed over.
    Skipped,
    /// A file whose name does not stand for an accepted image type.
    Refused,
    /// A file admitted as an image of the given subtype.
    Image(Seq<char>),
}

/// Whether `part` carries a file: it is the field `file` and is not empty.
pub open spec fn is_file_part(part: PartView) -> bool {
    part.name == "file"@ && part.data.len() > 0
}

/// What `part` is to the board, given the media type `guess` that the name of
/// its file suggests.
pub open spec fn classify_with(part: PartView, guess: (Seq<char>, Seq<char>)) -> PartClass {
    if is_file_part(part) {
        if part.filename is None {
            PartClass::Skipped
        } else if is_admitted(guess.0, guess.1) {
            PartClass::Image(guess.1)
        } else {
            PartClass::Refused
        }
    } else {
        PartClass::Text
    }
}

/// What `part` is to the board.
pub open spec fn classify(part: PartView) -> PartClass {
    classify_with(
        part,
        match part.filename {
            Some(filename) => guessed_type(filename),
            None => (Seq::empty(), Seq::empty()),
        },
    )
}

/// Whether a file is admitted, refused or passed over is decided by the name
/// that the client gave it, whatever it holds.
pub proof fn lemma_file_judged_by_name(a: PartView, b: PartView)
    requires
        is_file_part(a),
        is_file_part(b),
        a.filename == b.filename,
    ensures
        classify(a) == classify(b),
{
}

/// The end of a submission that is turned down while its form is read.
pub struct Failure {
    /// The reason.
    pub rejection: Rejection,
    /// The disk paths of the files to delete before the client is answered:
    /// all that were written for the submission, oldest first.
    pub remove: Vec<String>,
}

/// How to go on after a part.
pub enum PartOutcome {
    /// Read the next part. The submission is handed back, with the part's text
    /// in it if the part was a known field.
    Next(PostData),
    /// Write the bytes to the disk path of the image, try to decode the file
    /// as an image, and report with [`image_saved`].
    Save(PostData, StoredImage, Vec<u8>),
    /// Stop: the submission is turned down.
    Reject(Failure),
}

/// Takes one part of the form. A non-empty part named `file` is a file: without
/// a file name it is passed over; with one, it is admitted if the name's
/// extension stands for an accepted image type, and is then to be written under
/// a name made of a fresh identifier and that type's subtype; otherwise the
/// submission is turned down, and the files written for it so far are to be
/// deleted. Any other part is text: decoded leniently, trimmed, and stored
/// under its field's name, the last occurrence winning.
pub fn accept_part(data: PostData, part: Part) -> (out: PartOutcome)
    ensures
        match classify(part@) {
            PartClass::Text => out matches PartOutcome::Next(next)
                && next@ == data@.with_text(part@.name, field_text(part@.data)),
            PartClass::Skipped => out matches PartOutcome::Next(next) && next@ == data@,
            PartClass::Refused => out matches PartOutcome::Reject(failure)
                && failure.rejection == Rejection::UnsupportedFormat
                && texts(failure.remove@) == data@.files,
            PartClass::Image(subtype) => out matches PartOutcome::Save(next, image, bytes)
                && next@ == data@ && image@.subtype == subtype && is_random_id(image@.id)
                && bytes@ == part@.data,
        },
{
    let Part { name, filename, data: bytes } = part;
    if same_text(name.as_str(), "file") && bytes.len() > 0 {
        match filename {
            None => PartOutcome::Next(data),
            Some(filename) => {
                let admitted = admit_filename(filename.as_str());
                // An identifier is drawn for an admitted file only.
                let id = if admitted.is_some() {
                    fresh_id()
                } else {
                    0
                };
                place_file(data, admitted, id, bytes)
            },
        }
    } else {
        let text = read_field(bytes.as_slice());
        PartOutcome::Next(data.with_text(name.as_str(), text))
    }
}

/// Says how to go on after a file with a file name has arrived for the
/// submission `data`. `admitted` is the subtype under which the file is
/// admitted, if it is, `id` the identifier drawn for it, and `bytes` what it
/// holds. An admitted file is to be written under the name made of the
/// identifier and the subtype. A file that is not admitted, or whose subtype is
/// not an accepted one, turns the submission down, and the files written for
/// it so far are to be deleted.
pub fn place_file(
    data: PostData,
    admitted: Option<String>,
    id: u128,
    bytes: Vec<u8>,
) -> (out: PartOutcome)
    ensures
        if admitted is Some && is_allowed_subtype(admitted->0@) {
            out matches PartOutcome::Save(next, image, kept) && next@ == data@
                && image@ == (StoredImageView { id, subtype: admitted->0@ })
                && kept@ == bytes@
        } else {
            out matches PartOutcome::Reject(failure)
                && failure.rejection == Rejection::UnsupportedFormat
                && texts(failure.remove@) == data@.files
        },
{
    let image = match admitted {
        Some(subtype) => StoredImage::new(id, subtype.as_str()),
        None => None,
    };
    match image {
        Some(image) => PartOutcome::Save(data, image, bytes),
        None => PartOutcome::Reject(
            Failure { rejection: Rejection::UnsupportedFormat, remove: data.files },
        ),
    }
}

/// How the writing of an image went, as plain mathematical values.
pub enum SaveReportView {
    CreateFailed,
    WriteFailed(Seq<char>),
    Written(bool),
}

/// How the writing of an image went.
pub enum SaveReport {
    /// The file could not be created.
    CreateFailed,
    /// The file was created, but the bytes could not be written; with the
    /// cause.
    WriteFailed(String),
    /// The file was written; with the answer to the question whether it could
    /// then be opened and decoded as an image of the type that its name
    /// stands for.
    Written(bool),
}

impl View for SaveReport {
    type V = SaveReportView;

    open spec fn view(&self) -> SaveReportView {
        match self {
            SaveReport::CreateFailed => SaveReportView::CreateFailed,
            SaveReport::WriteFailed(cause) => SaveReportView::WriteFailed(cause@),
            SaveReport::Written(decodes) => SaveReportView::Written(*decodes),
        }
    }
}

/// Whether an image stays after the report `report`: it was written, and the
/// file decodes as an image.
pub open spec fn image_stays(report: SaveReportView) -> bool {
    report == SaveReportView::Written(true)
}

/// Why an image does not stay after the report `report`.
pub open spec fn save_rejection(report: SaveReportView) -> Rejection {
    match report {
        SaveReportView::CreateFailed => Rejection::SaveFailed,
        SaveReportView::WriteFailed(_) => Rejection::WriteFailed,
        SaveReportView::Written(_) => Rejection::InvalidImage,
    }
}

/// What the report `report` adds to the error log `log`.
pub open spec fn save_log(log: Seq<Seq<char>>, report: SaveReportView) -> Seq<Seq<char>> {
    match report {
        SaveReportView::CreateFailed => log.push("Failed to create image file"@),
        SaveReportView::WriteFailed(cause) => log.push("Error writing image: "@ + cause),
        _ => log,
    }
}

/// The files to delete after the writing of `image` for the submission `data`
/// has failed with the report `report`: those written for the submission
/// before, and the image's own unless it was never created.
pub open spec fn save_removals(
    data: PostDataView,
    image: StoredImageView,
    report: SaveReportView,
) -> Seq<Seq<char>> {
    if report is CreateFailed {
        data.files
    } else {
        data.files.push(image.disk_path())
    }
}

/// One thing that happens while a form is read.
pub enum StepView {
    /// A part arrived. If it is an admitted file, the identifier was drawn for
    /// it and the report came back from its writing; for any other part the
    /// two play no role.
    Part(PartView, u128, SaveReportView),
    /// The form could not be split into its next part.
    PartFailed,
    /// The bytes of a part could not be read to their end.
    ChunkFailed,
}

/// Where the reading of a form stands.
pub enum Reading {
    /// It goes on, with the submission as gathered so far.
    Open(PostDataView),
    /// It has ended in a refusal, with the files to delete.
    Closed(Rejection, Seq<Seq<char>>),
}

/// Where the reading stands after `step` has happened to the submission
/// `data`.
pub open spec fn after_step(data: PostDataView, step: StepView) -> Reading {
    match step {
        StepView::PartFailed => Reading::Closed(Rejection::InvalidForm, data.files),
        StepView::ChunkFailed => Reading::Closed(Rejection::BrokenChunk, data.files),
        StepView::Part(part, id, report) => match classify(part) {
            PartClass::Text => Reading::Open(data.with_text(part.name, field_text(part.data))),
            PartClass::Skipped => Reading::Open(data),
            PartClass::Refused => Reading::Closed(Rejection::UnsupportedFormat, data.files),
            PartClass::Image(subtype) => {
                let image = StoredImageView { id, subtype };
                if image_stays(report) {
                    Reading::Open(data.with_image(image))
                } else {
                    Reading::Closed(save_rejection(report), save_removals(data, image, report))
                }
            },
        },
    }
}

/// Where the reading stands after the steps `steps` have happened in their
/// order to the submission `data`. Nothing happens after a refusal.
pub open spec fn after_steps(data: PostDataView, steps: Seq<StepView>) -> Reading
    decreases steps.len(),
{
    if steps.len() == 0 {
        Reading::Open(data)
    } else {
        match after_steps(data, steps.drop_last()) {
            Reading::Open(so_far) => after_step(so_far, steps.last()),
            closed => closed,
        }
    }
}

/// The file that `step` leaves on disk, if it leaves one: the step is an
/// admitted file, and its file was created.
pub open spec fn file_created(step: StepView) -> Option<Seq<char>> {
    match step {
        StepView::Part(part, id, report) => match classify(part) {
            PartClass::Image(subtype) => if report is CreateFailed {
                None
            } else {
                Some((StoredImageView { id, subtype }).disk_path())
            },
            _ => None,
        },
        _ => None,
    }
}

/// The files that the steps `steps` leave on disk, oldest first, beside those
/// written for the submission `data` before: a step counts while the reading
/// is open.
pub open spec fn files_created(data: PostDataView, steps: Seq<StepView>) -> Seq<Seq<char>>
    decreases steps.len(),
{
    if steps.len() == 0 {
        data.files
    } else {
        let before = files_created(data, steps.drop_last());
        if after_steps(data, steps.drop_last()) is Open && file_created(steps.last()) is Some {
            before.push(file_created(steps.last())->0)
        } else {
            before
        }
    }
}

/// The text of the last part among `steps` that is named `field`, and the
/// empty text if there is none.
pub open spec fn last_text(steps: Seq<StepView>, field: Seq<char>) -> Seq<char>
    decreases steps.len(),
{
    if steps.len() == 0 {
        Seq::empty()
    } else {
        match steps.last() {
            StepView::Part(part, _, _) if part.name == field => field_text(part.data),
            _ => last_text(steps.drop_last(), field),
        }
    }
}

/// No file is lost sight of. While a form is read, the submission lists
/// exactly the files that were created for it; and when the reading ends in a
/// refusal, exactly those are to be deleted.
pub proof fn lemma_files_are_accounted_for(data: PostDataView, steps: Seq<StepView>)
    ensures
        match after_steps(data, steps) {
            Reading::Open(gathered) => gathered.files == files_created(data, steps),
            Reading::Closed(_, remove) => remove == files_created(data, steps),
        },
    decreases steps.len(),
{
    if steps.len() > 0 {
        lemma_files_are_accounted_for(data, steps.drop_last());
    }
}

/// Where a field occurs more than once in a form, its last occurrence wins,
/// and a field that does not occur stays empty, whatever else the form holds.
pub proof fn lemma_last_occurrence_wins(steps: Seq<StepView>)
    ensures
        after_steps(PostDataView::blank(), steps) matches Reading::Open(gathered) ==> {
            &&& gathered.name == last_text(steps, "name"@)
            &&& gathered.subject == last_text(steps, "subject"@)
            &&& gathered.body == last_text(steps, "body"@)
        },
    decreases steps.len(),
{
    reveal_strlit("name");
    reveal_strlit("subject");
    reveal_strlit("body");
    reveal_strlit("file");
    assert("name"@.len() == 4 && "subject"@.len() == 7 && "body"@.len() == 4 && "file"@.len() == 4);
    assert("name"@[0] == 'n' && "body"@[0] == 'b' && "file"@[0] == 'f' && "subject"@[0] == 's');
    if steps.len() > 0 {
        lemma_last_occurrence_wins(steps.drop_last());
    }
}

/// A form of text alone brings no image and leaves no file.
pub proof fn lemma_text_leaves_no_file(steps: Seq<StepView>)
    requires
        forall|i: int|
            0 <= i < steps.len() ==> (#[trigger] steps[i] matches StepView::Part(part, _, _)
                && !is_file_part(part)),
    ensures
        after_steps(PostDataView::blank(), steps) matches Reading::Open(gathered)
            && gathered.image_path is None && gathered.files == Seq::<Seq<char>>::empty(),
        files_created(PostDataView::blank(), steps) == Seq::<Seq<char>>::empty(),
    decreases steps.len(),
{
    if steps.len() > 0 {
        let earlier = steps.drop_last();
        assert forall|i: int| 0 <= i < earlier.len() implies (#[trigger] earlier[i]
            matches StepView::Part(part, _, _) && !is_file_part(part)) by {
            assert(earlier[i] == steps[i]);
        }
        lemma_text_leaves_no_file(earlier);
        assert(steps.last() == steps[steps.len() - 1]);
    }
}

/// Takes the answer to the question whether the file written for `image`
/// decodes as an image. If it does, the image stays: its public path enters
/// the submission `data`, and its file is one more of the files written for
/// it. If it does not, the submission is turned down as the client's fault,
/// and the files written for it, this one among them, are to be deleted.
pub fn image_checked(
    data: PostData,
    image: StoredImage,
    decodes: bool,
) -> (out: Result<PostData, Failure>)
    ensures
        if decodes {
            out matches Ok(next) && next@ == data@.with_image(image@)
        } else {
            out matches Err(failure) && failure.rejection == Rejection::InvalidImage
                && texts(failure.remove@) == data@.files.push(image@.disk_path())
        },
{
    let ghost before = data@;
    let PostData { name, subject, body, image_path, files } = data;
    let mut files = files;
    files.push(image.disk_path());
    assert(texts(files@) =~= before.files.push(image@.disk_path()));
    if decodes {
        Ok(PostData { name, subject, body, image_path: Some(image.public_path()), files })
    } else {
        Err(Failure { rejection: Rejection::InvalidImage, remove: files })
    }
}

/// Takes the report on the writing of `image`. The image stays if it was
/// written and the file decodes as an image: its public path then enters the
/// submission. Otherwise the submission is turned down: as the server's fault
/// if the file could not be created or written, as the client's if the file is
/// no image. The files written for the submission are then to be deleted,
/// this one among them unless it was never created. The server's faults are
/// recorded in the error log.
pub fn image_saved(
    log: &mut ErrorLog,
    data: PostData,
    image: StoredImage,
    report: SaveReport,
) -> (out: Result<PostData, Failure>)
    ensures
        final(log)@ == save_log(old(log)@, report@),
        if image_stays(report@) {
            out matches Ok(next) && next@ == data@.with_image(image@)
        } else {
            out matches Err(failure) && failure.rejection == save_rejection(report@)
                && texts(failure.remove@) == save_removals(data@, image@, report@)
        },
{
    match report {
        SaveReport::CreateFailed => {
            log_error(log, "Failed to create image file");
            Err(Failure { rejection: Rejection::SaveFailed, remove: data.files })
        },
        SaveReport::WriteFailed(cause) => {
            let mut line = "Error writing image: ".to_owned();
            line.append(cause.as_str());
            log_error(log, line.as_str());
            let ghost before = data@;
            let mut files = data.files;
            files.push(image.disk_path());
            assert(texts(files@) =~= before.files.push(image@.disk_path()));
            Err(Failure { rejection: Rejection::WriteFailed, remove: files })
        },
        SaveReport::Written(decodes) => image_checked(data, image, decodes),
    }
}

/// Takes the news that the form could not be split into its next part: the
/// submission is turned down, the files written for it are to be deleted, and
/// the cause is recorded in the error log.
pub fn part_failed(log: &mut ErrorLog, data: PostData, cause: &str) -> (failure: Failure)
    ensures
        failure.rejection == Rejection::InvalidForm,
        texts(failure.remove@) == data@.files,
        final(log)@ == old(log)@.push("Error processing field: "@ + cause@),
{
    let mut line = "Error processing field: ".to_owned();
    line.append(cause);
    log_error(log, line.as_str());
    Failure { rejection: Rejection::InvalidForm, remove: data.files }
}

/// Takes the news that the bytes of a part could not be read to their end:
/// the submission is turned down, the files written for it are to be deleted,
/// and the cause is recorded in the error log.
pub fn chunk_failed(log: &mut ErrorLog, data: PostData, cause: &str) -> (failure: Failure)
    ensures
        failure.rejection == Rejection::BrokenChunk,
        texts(failure.remove@) == data@.files,
        final(log)@ == old(log)@.push("Error reading chunk: "@ + cause@),
{
    let mut line = "Error reading chunk: ".to_owned();
    line.append(cause);
    log_error(log, line.as_str());
    Failure { rejection: Rejection::BrokenChunk, remove: data.files }
}

} // verus!
