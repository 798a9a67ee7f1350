//! What the listing endpoints make of the raw answers they get: block
//! devices from the table of a device lister, network names from a list of
//! lines, stored images from the entries of a directory.

use vstd::prelude::*;
use vstd::string::*;
use vstd::seq_lib::to_multiset_insert;
use crate::model::{Device, DeviceView};
use crate::text::{
    decimal, decimal_text, ends_with, fields_in, has_suffix, lines_in, split_fields, split_lines,
    texts,
};

verus! {

/// `found` with one more item, if there is one.
pub open spec fn with_found<T>(found: Seq<T>, item: Option<T>) -> Seq<T> {
    match item {
        Some(x) => found.push(x),
        None => found,
    }
}

/// The device that a line of the device table describes: a line of at least
/// four fields (name, size, type, hot-plug flag) whose type is `disk` and
/// whose flag is `1`. Other lines describe none.
pub open spec fn device_in(line: Seq<char>) -> Option<DeviceView> {
    let fields = fields_in(line);
    if fields.len() >= 4 && fields[2] == "disk"@ && fields[3] == "1"@ {
        Some(
            DeviceView {
                name: fields[0],
                path: "/dev/"@ + fields[0],
                size: fields[1],
                removable: true,
            },
        )
    } else {
        None
    }
}

/// The devices that the lines of a device table describe, in the order of
/// the lines.
pub open spec fn devices_in(lines: Seq<Seq<char>>) -> Seq<DeviceView>
    decreases lines.len(),
{
    if lines.len() == 0 {
        Seq::empty()
    } else {
        with_found(devices_in(lines.drop_last()), device_in(lines.last()))
    }
}

/// The content of each device of a list, in the same order.
pub open spec fn device_views(devices: Seq<Device>) -> Seq<DeviceView> {
    Seq::new(devices.len(), |i: int| devices[i]@)
}

/// Reads one line of the device table.
pub fn parse_device(line: &str) -> (device: Option<Device>)
    ensures
        match device {
            Some(d) => device_in(line@) == Some(d@),
            None => device_in(line@) is None,
        },
{
    let fields = split_fields(line);
    if fields.len() < 4 {
        return None;
    }
    let disk = String::from_str("disk");
    let one = String::from_str("1");
    if fields[2] == disk && fields[3] == one {
        Some(
            Device {
                name: fields[0].clone(),
                path: String::from_str("/dev/").concat(fields[0].as_str()),
                size: fields[1].clone(),
                removable: true,
            },
        )
    } else {
        None
    }
}

/// Reads the device table: the removable disks, in the order of the table.
pub fn parse_devices(output: &str) -> (devices: Vec<Device>)
    ensures
        device_views(devices@) == devices_in(lines_in(output@)),
{
    let lines = split_lines(output);
    let mut devices: Vec<Device> = Vec::new();
    let mut i: usize = 0;
    while i < lines.len()
        invariant
            i <= lines@.len(),
            device_views(devices@) == devices_in(texts(lines@).take(i as int)),
        decreases lines@.len() - i,
    {
        let ghost seen = texts(lines@).take(i as int);
        let ghost next = texts(lines@).take(i + 1);
        assert(next.drop_last() =~= seen);
        match parse_device(lines[i].as_str()) {
            Some(device) => {
                devices.push(device);
            },
            None => {},
        }
        i += 1;
    }
    assert(texts(lines@).take(i as int) =~= texts(lines@));
    devices
}

/// The lines with their numbers, counted from one: number, colon, space,
/// line.
pub open spec fn numbered(lines: Seq<Seq<char>>) -> Seq<Seq<char>> {
    Seq::new(lines.len(), |i: int| decimal((i + 1) as nat) + ": "@ + lines[i])
}

/// Numbers the lines of a text.
pub fn number_lines(output: &str) -> (list: Vec<String>)
    ensures
        texts(list@) == numbered(lines_in(output@)),
{
    let lines = split_lines(output);
    let mut list: Vec<String> = Vec::new();
    let mut i: usize = 0;
    while i < lines.len()
        invariant
            i <= lines@.len(),
            list@.len() == i,
            forall|k: int|
                0 <= k < i ==> (#[trigger] list@[k])@ == decimal((k + 1) as nat) + ": "@
                    + lines@[k]@,
        decreases lines@.len() - i,
    {
        let item = decimal_text(i + 1).concat(": ").concat(lines[i].as_str());
        list.push(item);
        i += 1;
    }
    list
}

/// Mathematical content of a [`FileInfo`].
pub struct FileInfoView {
    pub name: Seq<char>,
    pub path: Seq<char>,
    pub size: u64,
    pub modified: Option<u64>,
}

/// A regular file as a directory listing shows it.
#[derive(Debug, Clone, PartialEq, Eq)]
pub struct FileInfo {
    pub name: String,
    pub path: String,
    /// The size in bytes.
    pub size: u64,
    /// The time of the last change in seconds since 1970, where it is known.
    pub modified: Option<u64>,
}

impl View for FileInfo {
    type V = FileInfoView;

    open spec fn view(&self) -> FileInfoView {
        FileInfoView {
            name: self.name@,
            path: self.path@,
            size: self.size,
            modified: self.modified,
        }
    }
}

/// Mathematical content of a [`StoredImage`].
pub struct StoredImageView {
    pub name: Seq<char>,
    pub path: Seq<char>,
    pub size_mb: u64,
    pub modified: Option<u64>,
}

/// An image in the image store.
#[derive(Debug, Clone, PartialEq, Eq)]
pub struct StoredImage {
    pub name: String,
    pub path: String,
    /// The size in whole mebibytes, rounded down.
    pub size_mb: u64,
    pub modified: Option<u64>,
}

impl View for StoredImage {
    type V = StoredImageView;

    open spec fn view(&self) -> StoredImageView {
        StoredImageView {
            name: self.name@,
            path: self.path@,
            size_mb: self.size_mb,
            modified: self.modified,
        }
    }
}

/// The content of each file of a list, in the same order.
pub open spec fn file_views(files: Seq<FileInfo>) -> Seq<FileInfoView> {
    Seq::new(files.len(), |i: int| files[i]@)
}

/// The content of each image of a list, in the same order.
pub open spec fn image_views(images: Seq<StoredImage>) -> Seq<StoredImageView> {
    Seq::new(images.len(), |i: int| images[i]@)
}

/// An image is a file whose name ends in `.img` or `.img.xz`.
pub open spec fn is_image_name(name: Seq<char>) -> bool {
    ends_with(name, ".img"@) || ends_with(name, ".img.xz"@)
}

/// The image that a file is, where it is one.
pub open spec fn image_in(file: FileInfoView) -> Option<StoredImageView> {
    if is_image_name(file.name) {
        Some(
            StoredImageView {
                name: file.name,
                path: file.path,
                size_mb: (file.size / 1024 / 1024) as u64,
                modified: file.modified,
            },
        )
    } else {
        None
    }
}

/// The time by which an image is ordered: the time of its last change, or
/// zero where that is not known.
pub open spec fn age_key(image: StoredImageView) -> u64 {
    match image.modified {
        Some(t) => t,
        None => 0,
    }
}

/// The number of images at the start of `images` that are not older than
/// `key`: the place of an image of that time behind all that are as new.
pub open spec fn place_for(images: Seq<StoredImageView>, key: u64) -> nat
    decreases images.len(),
{
    if images.len() == 0 || age_key(images[0]) < key {
        0
    } else {
        1 + place_for(images.drop_first(), key)
    }
}

/// `images` with one more image, at its place.
pub open spec fn with_image_placed(images: Seq<StoredImageView>, image: Option<StoredImageView>) -> Seq<
    StoredImageView,
> {
    match image {
        Some(x) => images.insert(place_for(images, age_key(x)) as int, x),
        None => images,
    }
}

/// The images among `files`, newest first; images of the same time in the
/// order of the files.
pub open spec fn images_among(files: Seq<FileInfoView>) -> Seq<StoredImageView>
    decreases files.len(),
{
    if files.len() == 0 {
        Seq::empty()
    } else {
        with_image_placed(images_among(files.drop_last()), image_in(files.last()))
    }
}

/// The images of `files` in the order of the files.
pub open spec fn images_unordered(files: Seq<FileInfoView>) -> Seq<StoredImageView>
    decreases files.len(),
{
    if files.len() == 0 {
        Seq::empty()
    } else {
        with_found(images_unordered(files.drop_last()), image_in(files.last()))
    }
}

/// No image stands before a newer one.
pub open spec fn newest_first(images: Seq<StoredImageView>) -> bool {
    forall|i: int, j: int|
        0 <= i < j < images.len() ==> age_key(#[trigger] images[i]) >= age_key(
            #[trigger] images[j],
        )
}

/// The place of an image lies within the list; all images before it are at
/// least as new, and the image at the place, if any, is older.
pub proof fn lemma_place_for(images: Seq<StoredImageView>, key: u64)
    ensures
        place_for(images, key) <= images.len(),
        forall|i: int| 0 <= i < place_for(images, key) ==> age_key(#[trigger] images[i]) >= key,
        place_for(images, key) < images.len() ==> age_key(images[place_for(images, key) as int])
            < key,
    decreases images.len(),
{
    if images.len() > 0 && age_key(images[0]) >= key {
        let rest = images.drop_first();
        lemma_place_for(rest, key);
        assert forall|i: int| 0 <= i < place_for(images, key) implies age_key(
            #[trigger] images[i],
        ) >= key by {
            if i > 0 {
                assert(images[i] == rest[i - 1]);
            }
        }
    }
}

/// The listing is ordered: no image stands before a newer one.
pub proof fn law_images_are_newest_first(files: Seq<FileInfoView>)
    ensures
        newest_first(images_among(files)),
    decreases files.len(),
{
    if files.len() > 0 {
        let before = images_among(files.drop_last());
        law_images_are_newest_first(files.drop_last());
        match image_in(files.last()) {
            Some(x) => {
                let p = place_for(before, age_key(x)) as int;
                lemma_place_for(before, age_key(x));
                before.insert_ensures(p, x);
                let after = before.insert(p, x);
                assert forall|i: int, j: int| 0 <= i < j < after.len() implies age_key(
                    #[trigger] after[i],
                ) >= age_key(#[trigger] after[j]) by {
                    if j < p {
                        assert(after[i] == before[i] && after[j] == before[j]);
                    } else if j == p {
                        assert(after[i] == before[i]);
                    } else if i < p {
                        assert(after[i] == before[i] && after[j] == before[j - 1]);
                        assert(age_key(before[p]) >= age_key(before[j - 1]) || j - 1 == p);
                    } else if i == p {
                        assert(after[j] == before[j - 1]);
                        assert(age_key(before[p]) >= age_key(before[j - 1]) || j - 1 == p);
                    } else {
                        assert(after[i] == before[i - 1] && after[j] == before[j - 1]);
                    }
                }
            },
            None => {},
        }
    }
}

/// The listing holds the images among the files, each as often as it
/// occurs there, and nothing else.
pub proof fn law_listing_keeps_the_images(files: Seq<FileInfoView>)
    ensures
        images_among(files).to_multiset() == images_unordered(files).to_multiset(),
    decreases files.len(),
{
    if files.len() > 0 {
        let before = images_among(files.drop_last());
        law_listing_keeps_the_images(files.drop_last());
        match image_in(files.last()) {
            Some(x) => {
                lemma_place_for(before, age_key(x));
                to_multiset_insert(before, place_for(before, age_key(x)) as int, x);
                vstd::seq_lib::to_multiset_build(images_unordered(files.drop_last()), x);
            },
            None => {},
        }
    }
}

/// Whether a file name is that of an image.
pub fn is_image_file(name: &str) -> (image: bool)
    ensures
        image == is_image_name(name@),
{
    has_suffix(name, ".img") || has_suffix(name, ".img.xz")
}

/// The time by which an image is ordered.
fn age_of(modified: Option<u64>) -> (key: u64)
    ensures
        key == match modified {
            Some(t) => t,
            None => 0u64,
        },
{
    match modified {
        Some(t) => t,
        None => 0,
    }
}

/// Finds the place of an image of time `key` in a list that is ordered.
fn find_place(images: &Vec<StoredImage>, key: u64) -> (place: usize)
    ensures
        place == place_for(image_views(images@), key),
        place <= images@.len(),
{
    let ghost all = image_views(images@);
    let mut p: usize = 0;
    assert(all.skip(0) =~= all);
    while p < images.len() && age_of(images[p].modified) >= key
        invariant
            p <= images@.len(),
            all == image_views(images@),
            place_for(all, key) == p + place_for(all.skip(p as int), key),
        decreases images@.len() - p,
    {
        let ghost here = all.skip(p as int);
        assert(here.drop_first() =~= all.skip(p + 1));
        p += 1;
    }
    proof {
        let here = all.skip(p as int);
        if p < images@.len() {
            assert(here.len() > 0 && here[0] == images@[p as int]@);
        }
    }
    p
}

/// Lists the images among the files of the image store, newest first.
pub fn list_images(files: &Vec<FileInfo>) -> (images: Vec<StoredImage>)
    ensures
        image_views(images@) == images_among(file_views(files@)),
{
    let mut images: Vec<StoredImage> = Vec::new();
    let mut i: usize = 0;
    while i < files.len()
        invariant
            i <= files@.len(),
            image_views(images@) == images_among(file_views(files@).take(i as int)),
        decreases files@.len() - i,
    {
        let ghost seen = file_views(files@).take(i as int);
        let ghost next = file_views(files@).take(i + 1);
        assert(next.drop_last() =~= seen);
        let file = &files[i];
        if is_image_file(file.name.as_str()) {
            let image = StoredImage {
                name: file.name.clone(),
                path: file.path.clone(),
                size_mb: file.size / 1024 / 1024,
                modified: file.modified,
            };
            let place = find_place(&images, age_of(image.modified));
            let ghost before = image_views(images@);
            let ghost view = image@;
            images.insert(place, image);
            assert(image_views(images@) =~= before.insert(place as int, view));
        }
        i += 1;
    }
    assert(file_views(files@).take(i as int) =~= file_views(files@));
    images
}

} // verus!
