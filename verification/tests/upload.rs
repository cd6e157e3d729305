use chrono::{NaiveDate, NaiveDateTime};
use portal::calendar::CalendarDate;
use portal::upload::{
    category_form, category_form_on, media_folder, CategoriesForm, FormError, FormPart,
    UploadedFiles,
};

fn day() -> CalendarDate {
    CalendarDate { year: 2024, month: 3, day: 9 }
}

fn time(year: i32, month: u32, day: u32) -> NaiveDateTime {
    NaiveDate::from_ymd_opt(year, month, day).unwrap().and_hms_opt(23, 59, 58).unwrap()
}

fn text_part(name: &str, chunks: &[&[u8]]) -> FormPart {
    FormPart {
        name: name.to_string(),
        filename: None,
        chunks: chunks.iter().map(|c| c.to_vec()).collect(),
    }
}

fn image_part(filename: Option<&str>) -> FormPart {
    FormPart {
        name: "image".to_string(),
        filename: filename.map(|f| f.to_string()),
        chunks: vec![vec![0xff, 0xd8, 0xff]],
    }
}

#[test]
fn folder_is_named_by_owner_and_day() {
    assert_eq!(media_folder(7, day()), "./media/7/2024/3/9/");
    assert_eq!(
        media_folder(1234, CalendarDate { year: 1999, month: 12, day: 31 }),
        "./media/1234/1999/12/31/"
    );
    assert_eq!(media_folder(-5, CalendarDate { year: -1, month: 1, day: 1 }), "./media/-5/-1/1/1/");
    assert_eq!(
        media_folder(i32::MIN, CalendarDate { year: i32::MAX, month: u32::MAX, day: 0 }),
        "./media/-2147483648/2147483647/4294967295/0/"
    );
}

#[test]
fn dated_file_is_stored_under_its_folder() {
    let file = UploadedFiles::dated("pic.png".to_string(), 7, day());
    assert_eq!(file.name, "pic.png");
    assert_eq!(file.path, "./media/7/2024/3/9/pic.png");
    assert_eq!(file.create_path(), "/my/media/7/2024/3/9/");
    assert_eq!(file.served_path(), "/media/7/2024/3/9/pic.png");
}

#[test]
fn every_dot_slash_of_the_name_is_replaced_in_the_address() {
    let file = UploadedFiles::dated("a./b./c.png".to_string(), 7, day());
    assert_eq!(file.path, "./media/7/2024/3/9/a./b./c.png");
    assert_eq!(file.served_path(), "/media/7/2024/3/9/a/b/c.png");
    assert_eq!(file.create_path(), "/my/media/7/2024/3/9/");
}

#[test]
fn create_path_of_a_file_that_is_only_its_name() {
    let file = UploadedFiles { name: "longer than path".to_string(), path: "./p".to_string() };
    assert_eq!(file.create_path(), "");
    let file = UploadedFiles { name: "x".to_string(), path: "././x".to_string() };
    assert_eq!(file.create_path(), "/my//my/");
}

#[test]
fn new_file_is_stored_under_the_folder_of_the_day_of_its_time() {
    let file = UploadedFiles::new("pic.png".to_string(), 7, &time(2024, 3, 9));
    assert_eq!(file.name, "pic.png");
    assert_eq!(file.path, "./media/7/2024/3/9/pic.png");
    assert_eq!(file.create_path(), "/my/media/7/2024/3/9/");
    let file = UploadedFiles::new("a.txt".to_string(), -1, &time(1969, 12, 31));
    assert_eq!(file.path, "./media/-1/1969/12/31/a.txt");
    let file = UploadedFiles::new("a.txt".to_string(), 0, &time(-44, 2, 29));
    assert_eq!(file.path, "./media/0/-44/2/29/a.txt");
    let at = time(2030, 11, 1);
    assert_eq!(
        UploadedFiles::new("x".to_string(), 5, &at).path,
        UploadedFiles::dated("x".to_string(), 5, CalendarDate { year: 2030, month: 11, day: 1 }).path
    );
}

#[test]
fn empty_form() {
    let form = CategoriesForm::new();
    assert_eq!(form.name, "");
    assert_eq!(form.description, "");
    assert_eq!(form.image, "");
    let parsed = category_form_on(&vec![], 7, day()).unwrap();
    assert_eq!(parsed.form.name, "");
    assert_eq!(parsed.form.description, "");
    assert_eq!(parsed.form.image, "");
    assert!(parsed.uploads.is_empty());
}

#[test]
fn form_with_text_and_image() {
    let parts = vec![
        text_part("name", &["Новости".as_bytes()]),
        image_part(Some("pic.png")),
        text_part("description", &[b"all the news"]),
        text_part("other", &[b"ignored"]),
    ];
    let parsed = category_form_on(&parts, 7, day()).unwrap();
    assert_eq!(parsed.form.name, "Новости");
    assert_eq!(parsed.form.description, "all the news");
    assert_eq!(parsed.form.image, "/media/7/2024/3/9/pic.png");
    assert_eq!(parsed.uploads.len(), 1);
    assert_eq!(parsed.uploads[0].part, 1);
    assert_eq!(parsed.uploads[0].file.name, "pic.png");
    assert_eq!(parsed.uploads[0].file.path, "./media/7/2024/3/9/pic.png");
}

#[test]
fn last_chunk_that_is_text_stands() {
    let parts = vec![text_part("name", &[b"first", b"second", &[0xff, 0xfe], &[0xc3]])];
    let parsed = category_form_on(&parts, 7, day()).unwrap();
    assert_eq!(parsed.form.name, "second");
    let parts = vec![text_part("name", &[b"kept"]), text_part("name", &[&[0x80]])];
    let parsed = category_form_on(&parts, 7, day()).unwrap();
    assert_eq!(parsed.form.name, "kept");
    let parts = vec![text_part("name", &[b"kept"]), text_part("name", &[b""])];
    let parsed = category_form_on(&parts, 7, day()).unwrap();
    assert_eq!(parsed.form.name, "");
}

#[test]
fn bytes_that_are_no_text_leave_the_field() {
    let overlong: &[u8] = &[0xc0, 0xaf];
    let surrogate: &[u8] = &[0xed, 0xa0, 0x80];
    let parts = vec![text_part("description", &[overlong, surrogate])];
    let parsed = category_form_on(&parts, 7, day()).unwrap();
    assert_eq!(parsed.form.description, "");
    let parts = vec![text_part("description", &["\u{10348}€é".as_bytes()])];
    let parsed = category_form_on(&parts, 7, day()).unwrap();
    assert_eq!(parsed.form.description, "\u{10348}€é");
}

#[test]
fn image_part_with_empty_file_name_stores_nothing() {
    let parts = vec![image_part(Some("")), text_part("name", &[b"n"])];
    let parsed = category_form_on(&parts, 7, day()).unwrap();
    assert_eq!(parsed.form.image, "");
    assert_eq!(parsed.form.name, "n");
    assert!(parsed.uploads.is_empty());
}

#[test]
fn later_image_takes_the_place_of_the_earlier() {
    let parts = vec![image_part(Some("a.png")), text_part("name", &[b"n"]), image_part(Some("b./x.png"))];
    let parsed = category_form_on(&parts, -3, day()).unwrap();
    assert_eq!(parsed.form.image, "/media/-3/2024/3/9/b/x.png");
    assert_eq!(parsed.uploads.len(), 2);
    assert_eq!(parsed.uploads[0].part, 0);
    assert_eq!(parsed.uploads[0].file.path, "./media/-3/2024/3/9/a.png");
    assert_eq!(parsed.uploads[1].part, 2);
    assert_eq!(parsed.uploads[1].file.path, "./media/-3/2024/3/9/b./x.png");
}

#[test]
fn image_part_without_file_name_is_an_error() {
    let parts = vec![text_part("name", &[b"n"]), image_part(None)];
    assert_eq!(category_form_on(&parts, 7, day()).err(), Some(FormError::MissingFilename));
    assert_eq!(category_form(&parts, 7, &time(2024, 3, 9)).err(), Some(FormError::MissingFilename));
}

#[test]
fn text_part_may_carry_a_file_name() {
    let mut part = text_part("name", &[b"n"]);
    part.filename = Some("ignored.txt".to_string());
    let parsed = category_form_on(&vec![part], 7, day()).unwrap();
    assert_eq!(parsed.form.name, "n");
    assert!(parsed.uploads.is_empty());
}

#[test]
fn form_read_at_a_time() {
    let parts = vec![text_part("name", &[b"n"]), image_part(Some("pic.png"))];
    let parsed = category_form(&parts, 7, &time(2025, 1, 31)).unwrap();
    assert_eq!(parsed.form.name, "n");
    assert_eq!(parsed.form.image, "/media/7/2025/1/31/pic.png");
    assert_eq!(parsed.uploads.len(), 1);
    assert_eq!(parsed.uploads[0].part, 1);
    assert_eq!(parsed.uploads[0].file.path, "./media/7/2025/1/31/pic.png");
}
