//! Uploaded files and the category form that carries them.
//!
//! A file is stored under a folder named by its owner and by the day on
//! which it came. The form is read from the parts of a multipart body that
//! the caller has taken off the wire.

use vstd::prelude::*;
use vstd::string::StringExecFns;
use vstd::utf8::{decode_utf8, valid_utf8};
use crate::calendar::{calendar_date, CalendarDate};
use crate::text::{
    chars_of,
    decimal,
    equal_text,
    free_of,
    lemma_decimal_is_digits,
    lemma_replace_at_head,
    lemma_replace_keeps_text_without_pattern,
    push_char,
    push_decimal,
    push_signed_decimal,
    replace,
    replace_all,
    signed_decimal,
};

verus! {

/// A stored file: the name it came with and the path it is stored at.
#[derive(Debug, Clone)]
pub struct UploadedFiles {
    pub name: String,
    pub path: String,
}

/// What the category form holds.
#[derive(Debug)]
pub struct CategoriesForm {
    pub name: String,
    pub description: String,
    pub image: String,
}

/// One part of a multipart body: the field's name, the file name where the
/// part carries one, and the part's data as it came, chunk by chunk.
#[derive(Debug, Clone)]
pub struct FormPart {
    pub name: String,
    pub filename: Option<String>,
    pub chunks: Vec<Vec<u8>>,
}

/// A file to store: the part whose data it holds, and where it goes.
#[derive(Debug, Clone)]
pub struct Upload {
    pub part: usize,
    pub file: UploadedFiles,
}

/// A category form as read, with the files that are to be stored for it.
#[derive(Debug)]
pub struct ParsedForm {
    pub form: CategoriesForm,
    pub uploads: Vec<Upload>,
}

/// Why a form could not be read.
#[derive(Clone, Copy, Debug, PartialEq, Eq, Structural)]
pub enum FormError {
    /// The image part names no file.
    MissingFilename,
}

/// A form as text.
pub ghost struct FormText {
    pub name: Seq<char>,
    pub description: Seq<char>,
    pub image: Seq<char>,
}

/// A part as text and bytes.
pub ghost struct PartText {
    pub name: Seq<char>,
    pub filename: Option<Seq<char>>,
    pub chunks: Seq<Seq<u8>>,
}

/// A file to store, as text.
pub ghost struct UploadText {
    pub part: int,
    pub name: Seq<char>,
    pub path: Seq<char>,
}

impl View for CategoriesForm {
    type V = FormText;

    open spec fn view(&self) -> FormText {
        FormText { name: self.name@, description: self.description@, image: self.image@ }
    }
}

impl View for FormPart {
    type V = PartText;

    open spec fn view(&self) -> PartText {
        PartText {
            name: self.name@,
            filename: match self.filename {
                Some(f) => Some(f@),
                None => None,
            },
            chunks: Seq::new(self.chunks@.len(), |i: int| self.chunks@[i]@),
        }
    }
}

impl View for Upload {
    type V = UploadText;

    open spec fn view(&self) -> UploadText {
        UploadText { part: self.part as int, name: self.file.name@, path: self.file.path@ }
    }
}

/// The parts of a body as text and bytes.
pub open spec fn parts_text(parts: Seq<FormPart>) -> Seq<PartText> {
    Seq::new(parts.len(), |i: int| parts[i]@)
}

/// The files to store, as text.
pub open spec fn uploads_text(uploads: Seq<Upload>) -> Seq<UploadText> {
    Seq::new(uploads.len(), |i: int| uploads[i]@)
}

/// The folder of the files that `owner` brought on `date`.
pub open spec fn media_folder_text(owner: int, date: CalendarDate) -> Seq<char> {
    "./media/"@ + signed_decimal(owner) + "/"@ + signed_decimal(date.year as int) + "/"@ + decimal(
        date.month as nat,
    ) + "/"@ + decimal(date.day as nat) + "/"@
}

/// The part of a stored file's path that stands before its name.
pub open spec fn folder_part(path: Seq<char>, name: Seq<char>) -> Seq<char> {
    if name.len() <= path.len() {
        path.take(path.len() - name.len())
    } else {
        Seq::<char>::empty()
    }
}

/// The value of a text field after its chunks: each chunk that is UTF-8
/// takes the place of what was there.
pub open spec fn text_after(value: Seq<char>, chunks: Seq<Seq<u8>>) -> Seq<char>
    decreases chunks.len(),
{
    if chunks.len() == 0 {
        value
    } else if valid_utf8(chunks.last()) {
        decode_utf8(chunks.last())
    } else {
        text_after(value, chunks.drop_last())
    }
}

/// Whether a part is a file to store: the image part with a file name that
/// is not empty.
pub open spec fn is_stored(part: PartText) -> bool {
    &&& part.name == "image"@
    &&& part.filename matches Some(f)
    &&& f.len() > 0
}

/// Whether a part is an image part that names no file.
pub open spec fn lacks_filename(part: PartText) -> bool {
    part.name == "image"@ && part.filename is None
}

/// The path of the file that the stored part gives.
pub open spec fn stored_path(part: PartText, owner: int, date: CalendarDate) -> Seq<char> {
    media_folder_text(owner, date) + part.filename->0
}

/// The form after one more part.
pub open spec fn form_after_part(form: FormText, part: PartText, owner: int, date: CalendarDate) -> FormText {
    if part.name == "image"@ {
        if is_stored(part) {
            FormText { image: replace_all(stored_path(part, owner, date), "./"@, "/"@), ..form }
        } else {
            form
        }
    } else if part.name == "name"@ {
        FormText { name: text_after(form.name, part.chunks), ..form }
    } else if part.name == "description"@ {
        FormText { description: text_after(form.description, part.chunks), ..form }
    } else {
        form
    }
}

/// The form after the parts, from the empty form.
pub open spec fn form_after(parts: Seq<PartText>, owner: int, date: CalendarDate) -> FormText
    decreases parts.len(),
{
    if parts.len() == 0 {
        FormText {
            name: Seq::<char>::empty(),
            description: Seq::<char>::empty(),
            image: Seq::<char>::empty(),
        }
    } else {
        form_after_part(form_after(parts.drop_last(), owner, date), parts.last(), owner, date)
    }
}

/// The files to store for the parts, in the order of the parts.
pub open spec fn uploads_after(parts: Seq<PartText>, owner: int, date: CalendarDate) -> Seq<
    UploadText,
>
    decreases parts.len(),
{
    if parts.len() == 0 {
        Seq::<UploadText>::empty()
    } else {
        let before = uploads_after(parts.drop_last(), owner, date);
        if is_stored(parts.last()) {
            before.push(
                UploadText {
                    part: parts.len() - 1,
                    name: parts.last().filename->0,
                    path: stored_path(parts.last(), owner, date),
                },
            )
        } else {
            before
        }
    }
}

/// Whether some image part names no file.
pub open spec fn some_part_lacks_filename(parts: Seq<PartText>) -> bool {
    exists|i: int| 0 <= i < parts.len() && lacks_filename(#[trigger] parts[i])
}

/// What reading the parts on `date` gives.
pub open spec fn form_matches(
    r: Result<ParsedForm, FormError>,
    parts: Seq<PartText>,
    owner: int,
    date: CalendarDate,
) -> bool {
    match r {
        Ok(parsed) => {
            &&& !some_part_lacks_filename(parts)
            &&& parsed.form@ == form_after(parts, owner, date)
            &&& uploads_text(parsed.uploads@) == uploads_after(parts, owner, date)
        },
        Err(error) => error == FormError::MissingFilename && some_part_lacks_filename(parts),
    }
}

/// `std::str::from_utf8`: the text of `data` where `data` is UTF-8, nothing
/// where it is not.
#[verifier::external_body]
fn utf8_text<'a>(data: &'a [u8]) -> (r: Option<&'a str>)
    ensures
        r is Some <==> valid_utf8(data@),
        r matches Some(text) ==> text@ == decode_utf8(data@),
{
    match std::str::from_utf8(data) {
        Ok(text) => Some(text),
        Err(_) => None,
    }
}

/// The folder of the files that `owner_id` brought on `date`.
pub fn media_folder(owner_id: i32, date: CalendarDate) -> (folder: String)
    ensures
        folder@ == media_folder_text(owner_id as int, date),
{
    let mut folder = String::from_str("./media/");
    push_signed_decimal(&mut folder, owner_id as i64);
    folder.append("/");
    push_signed_decimal(&mut folder, date.year as i64);
    folder.append("/");
    push_decimal(&mut folder, date.month as u64);
    folder.append("/");
    push_decimal(&mut folder, date.day as u64);
    folder.append("/");
    folder
}

impl UploadedFiles {
    /// The file `filename` of `owner_id`, stored under the folder of `date`.
    pub fn dated(filename: String, owner_id: i32, date: CalendarDate) -> (file: UploadedFiles)
        ensures
            file.name@ == filename@,
            file.path@ == media_folder_text(owner_id as int, date) + filename@,
    {
        let mut path = media_folder(owner_id, date);
        path.append(filename.as_str());
        UploadedFiles { name: filename, path }
    }

    /// The file `filename` of `owner_id`, stored under the folder of the
    /// day of `now`.
    pub fn new(filename: String, owner_id: i32, now: &chrono::NaiveDateTime) -> (file:
        UploadedFiles)
        ensures
            exists|date: CalendarDate|
                #[trigger] date.valid() && file.name@ == filename@ && file.path@
                    == media_folder_text(owner_id as int, date) + filename@,
    {
        let date = calendar_date(now);
        UploadedFiles::dated(filename, owner_id, date)
    }

    /// The directory that must be there before the file is written: the
    /// file's folder under the storage root.
    pub fn create_path(&self) -> (directory: String)
        ensures
            directory@ == replace_all(folder_part(self.path@, self.name@), "./"@, "/my/"@),
    {
        let path = chars_of(self.path.as_str());
        let name = chars_of(self.name.as_str());
        let keep: usize = if name.len() <= path.len() {
            path.len() - name.len()
        } else {
            0
        };
        let mut folder = String::new();
        let mut i: usize = 0;
        while i < keep
            invariant
                i <= keep <= path.len(),
                folder@ == path@.take(i as int),
            decreases keep - i,
        {
            push_char(&mut folder, path[i]);
            assert(path@.take(i as int).push(path@[i as int]) =~= path@.take(i + 1));
            i += 1;
        }
        assert(folder@ =~= folder_part(self.path@, self.name@));
        replace(folder.as_str(), "./", "/my/")
    }

    /// The address under which the stored file is served.
    pub fn served_path(&self) -> (address: String)
        ensures
            address@ == replace_all(self.path@, "./"@, "/"@),
    {
        replace(self.path.as_str(), "./", "/")
    }
}

impl CategoriesForm {
    /// The empty form.
    pub fn new() -> (form: CategoriesForm)
        ensures
            form@ == (FormText {
                name: Seq::<char>::empty(),
                description: Seq::<char>::empty(),
                image: Seq::<char>::empty(),
            }),
    {
        CategoriesForm { name: String::new(), description: String::new(), image: String::new() }
    }
}

/// The value of a text field after its chunks.
fn read_text(value: String, chunks: &Vec<Vec<u8>>) -> (after: String)
    ensures
        after@ == text_after(value@, Seq::new(chunks@.len(), |i: int| chunks@[i]@)),
{
    let ghost all = Seq::new(chunks@.len(), |i: int| chunks@[i]@);
    let mut after = value;
    let mut i: usize = 0;
    assert(all.take(0) =~= Seq::<Seq<u8>>::empty());
    while i < chunks.len()
        invariant
            i <= chunks.len(),
            all == Seq::new(chunks@.len(), |i: int| chunks@[i]@),
            after@ == text_after(value@, all.take(i as int)),
        decreases chunks.len() - i,
    {
        let ghost upto = all.take(i + 1);
        assert(upto.last() == chunks@[i as int]@);
        assert(upto.drop_last() =~= all.take(i as int));
        match utf8_text(chunks[i].as_slice()) {
            Some(text) => {
                after = String::from_str(text);
            },
            None => {},
        }
        i += 1;
    }
    assert(all.take(i as int) =~= all);
    after
}

/// Reads the category form from the parts of a body, with `date` as the day
/// on which its files came.
pub fn category_form_on(parts: &Vec<FormPart>, owner_id: i32, date: CalendarDate) -> (r: Result<
    ParsedForm,
    FormError,
>)
    ensures
        form_matches(r, parts_text(parts@), owner_id as int, date),
{
    let ghost all = parts_text(parts@);
    let mut form = CategoriesForm::new();
    let mut uploads: Vec<Upload> = Vec::new();
    let mut i: usize = 0;
    assert(all.take(0) =~= Seq::<PartText>::empty());
    assert(uploads_text(uploads@) =~= Seq::<UploadText>::empty());
    while i < parts.len()
        invariant
            i <= parts.len(),
            all == parts_text(parts@),
            forall|j: int| 0 <= j < i ==> !lacks_filename(#[trigger] all[j]),
            form@ == form_after(all.take(i as int), owner_id as int, date),
            uploads_text(uploads@) == uploads_after(all.take(i as int), owner_id as int, date),
        decreases parts.len() - i,
    {
        let part = &parts[i];
        let ghost upto = all.take(i + 1);
        assert(upto.last() == part@);
        assert(upto.drop_last() =~= all.take(i as int));
        let ghost before = uploads@;
        if equal_text(part.name.as_str(), "image") {
            match &part.filename {
                Some(filename) => {
                    if filename.as_str().unicode_len() > 0 {
                        let file = UploadedFiles::dated(filename.clone(), owner_id, date);
                        form.image = file.served_path();
                        uploads.push(Upload { part: i, file });
                        assert(uploads_text(uploads@) =~= uploads_text(before).push(
                            uploads@[before.len() as int]@,
                        ));
                    }
                },
                None => {
                    assert(lacks_filename(all[i as int]));
                    return Err(FormError::MissingFilename);
                },
            }
        } else if equal_text(part.name.as_str(), "name") {
            form.name = read_text(form.name, &part.chunks);
        } else if equal_text(part.name.as_str(), "description") {
            form.description = read_text(form.description, &part.chunks);
        }
        i += 1;
    }
    assert(all.take(i as int) =~= all);
    Ok(ParsedForm { form, uploads })
}

/// Reads the category form from the parts of a body. Its files are stored
/// under the folder of the day of `now`.
pub fn category_form(parts: &Vec<FormPart>, owner_id: i32, now: &chrono::NaiveDateTime) -> (r:
    Result<ParsedForm, FormError>)
    ensures
        exists|date: CalendarDate|
            #[trigger] date.valid() && form_matches(r, parts_text(parts@), owner_id as int, date),
{
    let date = calendar_date(now);
    category_form_on(parts, owner_id, date)
}

/// The folder of a file that is stored under `folder` by its name is
/// `folder`, whatever the name holds.
pub proof fn lemma_folder_of_stored_file(folder: Seq<char>, name: Seq<char>)
    ensures
        folder_part(folder + name, name) == folder,
{
    assert((folder + name).take(folder.len() as int) =~= folder);
}

/// What stands behind the leading `./` of the folder of `owner` and `date`.
pub open spec fn folder_tail(owner: int, date: CalendarDate) -> Seq<char> {
    "media/"@ + signed_decimal(owner) + "/"@ + signed_decimal(date.year as int) + "/"@ + decimal(
        date.month as nat,
    ) + "/"@ + decimal(date.day as nat) + "/"@
}

/// The folder of `owner` and `date` holds `./` at its head and nowhere else:
/// the directory to create for a file stored there is the folder with `/my/`
/// in the place of that `./`, and a file with a name without a dot is served
/// under the folder with `/` in that place.
pub proof fn lemma_directory_of_stored_file(owner: int, date: CalendarDate, name: Seq<char>)
    ensures
        media_folder_text(owner, date) == "./"@ + folder_tail(owner, date),
        replace_all(
            folder_part(media_folder_text(owner, date) + name, name),
            "./"@,
            "/my/"@,
        ) == "/my/"@ + folder_tail(owner, date),
        free_of(name, '.') ==> replace_all(media_folder_text(owner, date) + name, "./"@, "/"@)
            == "/"@ + folder_tail(owner, date) + name,
{
    reveal_strlit("./media/");
    reveal_strlit("media/");
    reveal_strlit("./");
    reveal_strlit("/");
    let tail = folder_tail(owner, date);
    let folder = media_folder_text(owner, date);
    assert("./media/"@ =~= "./"@ + "media/"@);
    assert(folder =~= "./"@ + tail);
    lemma_folder_of_stored_file(folder, name);
    assert(free_of(tail, '.')) by {
        lemma_decimal_is_digits((if owner < 0 { -owner } else { owner }) as nat, '.');
        lemma_decimal_is_digits((if date.year < 0 { -date.year } else { date.year as int }) as nat, '.');
        lemma_decimal_is_digits(date.month as nat, '.');
        lemma_decimal_is_digits(date.day as nat, '.');
        assert(free_of(signed_decimal(owner), '.'));
        assert(free_of(signed_decimal(date.year as int), '.'));
    }
    lemma_replace_at_head(tail, "./"@, "/my/"@);
    lemma_replace_keeps_text_without_pattern(tail, "./"@, "/my/"@);
    if free_of(name, '.') {
        assert(folder + name =~= "./"@ + (tail + name));
        assert(free_of(tail + name, '.'));
        lemma_replace_at_head(tail + name, "./"@, "/"@);
        lemma_replace_keeps_text_without_pattern(tail + name, "./"@, "/"@);
        assert("/"@ + (tail + name) =~= "/"@ + tail + name);
    }
}

} // verus!
