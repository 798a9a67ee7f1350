use imgforge::error::AppError;
use imgforge::listing::{
    is_image_file, list_images, number_lines, parse_device, parse_devices, FileInfo, StoredImage,
};
use imgforge::model::Device;
use imgforge::upload::answer_upload;

fn device(name: &str, size: &str) -> Device {
    Device {
        name: name.to_string(),
        path: format!("/dev/{}", name),
        size: size.to_string(),
        removable: true,
    }
}

fn file(name: &str, size: u64, modified: Option<u64>) -> FileInfo {
    FileInfo { name: name.to_string(), path: format!("/store/{}", name), size, modified }
}

fn names(images: &[StoredImage]) -> Vec<String> {
    images.iter().map(|i| i.name.clone()).collect()
}

#[test]
fn removable_disks_are_listed() {
    let table = "sda    500G disk 0\nsdb   14.9G disk 1\nsdb1  14.9G part 1\nsr0   1024M rom  1\n\
                 mmcblk0 29.7G disk 1\n";
    assert_eq!(parse_devices(table), vec![device("sdb", "14.9G"), device("mmcblk0", "29.7G")]);
}

#[test]
fn device_line_needs_four_fields() {
    assert_eq!(parse_device("sdb 14.9G disk"), None);
    assert_eq!(parse_device(""), None);
    assert_eq!(parse_device("   "), None);
    assert_eq!(parse_device("sdb 14.9G disk 1"), Some(device("sdb", "14.9G")));
    assert_eq!(parse_device("\tsdb\t14.9G  disk\u{a0}1 extra"), Some(device("sdb", "14.9G")));
    assert_eq!(parse_device("sdb 14.9G disk 10"), None);
    assert_eq!(parse_device("sdb 14.9G disks 1"), None);
}

#[test]
fn empty_device_table_lists_nothing() {
    assert!(parse_devices("").is_empty());
    assert!(parse_devices("\n\n").is_empty());
}

#[test]
fn device_table_with_carriage_returns() {
    assert_eq!(parse_devices("sdc 8G disk 1\r\nsdd 4G disk 1"), vec![
        device("sdc", "8G"),
        device("sdd", "4G")
    ]);
}

#[test]
fn network_names_are_numbered_from_one() {
    assert_eq!(
        number_lines("home\noffice net\n\nlab"),
        vec!["1: home".to_string(), "2: office net".to_string(), "3: ".to_string(), "4: lab".to_string()]
    );
    assert!(number_lines("").is_empty());
}

#[test]
fn numbering_goes_past_nine() {
    let text = "x\n".repeat(12);
    let list = number_lines(&text);
    assert_eq!(list.len(), 12);
    assert_eq!(list[8], "9: x");
    assert_eq!(list[9], "10: x");
    assert_eq!(list[11], "12: x");
}

#[test]
fn image_names_end_in_img_or_img_xz() {
    assert!(is_image_file("a.img"));
    assert!(is_image_file("a.img.xz"));
    assert!(is_image_file(".img"));
    assert!(!is_image_file("a.img.gz"));
    assert!(!is_image_file("a.xz"));
    assert!(!is_image_file("img"));
    assert!(!is_image_file(""));
    assert!(!is_image_file("a.IMG"));
}

#[test]
fn images_are_listed_newest_first() {
    let files = vec![
        file("old.img", 5 * 1024 * 1024, Some(100)),
        file("notes.txt", 10, Some(900)),
        file("new.img.xz", 3 * 1024 * 1024 + 1, Some(300)),
        file("mid.img", 1024 * 1024 - 1, Some(200)),
    ];
    let images = list_images(&files);
    assert_eq!(names(&images), vec!["new.img.xz".to_string(), "mid.img".to_string(), "old.img".to_string()]);
    assert_eq!(
        images[0],
        StoredImage {
            name: "new.img.xz".to_string(),
            path: "/store/new.img.xz".to_string(),
            size_mb: 3,
            modified: Some(300),
        }
    );
    assert_eq!(images[1].size_mb, 0);
    assert_eq!(images[2].size_mb, 5);
}

#[test]
fn images_of_the_same_time_keep_their_order() {
    let files = vec![
        file("a.img", 0, Some(7)),
        file("b.img", 0, None),
        file("c.img", 0, Some(7)),
        file("d.img", 0, Some(0)),
        file("e.img", 0, Some(9)),
    ];
    assert_eq!(
        names(&list_images(&files)),
        vec![
            "e.img".to_string(),
            "a.img".to_string(),
            "c.img".to_string(),
            "b.img".to_string(),
            "d.img".to_string()
        ]
    );
}

#[test]
fn image_size_is_in_whole_mebibytes() {
    let files = vec![file("big.img", u64::MAX, Some(1)), file("one.img", 1_048_576, Some(0))];
    let images = list_images(&files);
    assert_eq!(images[0].size_mb, 17_592_186_044_415);
    assert_eq!(images[1].size_mb, 1);
}

#[test]
fn empty_store_lists_nothing() {
    assert!(list_images(&Vec::new()).is_empty());
}

#[test]
fn upload_reports_the_last_stored_file() {
    let stored = vec!["/up/a.img".to_string(), "/up/b.img".to_string()];
    assert_eq!(answer_upload(&stored), Ok("/up/b.img".to_string()));
}

#[test]
fn upload_without_a_file_is_a_bad_request() {
    assert_eq!(
        answer_upload(&Vec::new()),
        Err(AppError::BadRequest("No file provided".to_string()))
    );
}
