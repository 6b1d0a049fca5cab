use ripdrag::config::Config;
use ripdrag::file_object::{
    content_type_or_default, icon_name_or_default, mime_class_of, thumbnail_result, Delivery,
    FileInfo, FileObject, MimeClass, Thumbnail, ThumbnailRequest, ThumbnailResult, ThumbnailState,
    DIRECTORY_TYPE, IMAGE_PATTERN,
};

fn object_info(path: &str, basename: &str, class: MimeClass) -> FileInfo {
    FileInfo {
        uri: format!("file://{}", path),
        path: Some(path.to_string()),
        parse_name: path.to_string(),
        basename: Some(basename.to_string()),
        relative_name: None,
        is_directory: class == MimeClass::Directory,
        is_image: class == MimeClass::Image,
        generic_icon: Some("x-generic".to_string()),
    }
}

fn below_start(path: &str, basename: &str, relative: &str) -> FileInfo {
    let mut info = object_info(path, basename, MimeClass::Other);
    info.relative_name = Some(relative.to_string());
    info
}

fn small_image() -> Thumbnail {
    Thumbnail {
        pixels: vec![1, 2, 3, 4, 5, 6],
        width: 2,
        height: 1,
        rowstride: 6,
        has_alpha: false,
        bits_per_sample: 8,
    }
}

fn decode_at(path: &str, width: i32) -> ThumbnailRequest {
    ThumbnailRequest::Decode {
        path: path.to_string(),
        width,
        height: -1,
        preserve_aspect_ratio: true,
    }
}

#[test]
fn content_type_defaults_to_plain_text() {
    assert_eq!(content_type_or_default(None), "text/plain");
    assert_eq!(content_type_or_default(Some("image/png".to_string())), "image/png");
}

#[test]
fn icon_defaults_to_the_default_icon() {
    assert_eq!(icon_name_or_default(None), "text/default");
    assert_eq!(icon_name_or_default(Some("folder".to_string())), "folder");
}

#[test]
fn the_registry_is_asked_about_these_types() {
    assert_eq!(DIRECTORY_TYPE, "inode/directory");
    assert_eq!(IMAGE_PATTERN, "image/*");
}

#[test]
fn files_fall_into_three_kinds() {
    assert_eq!(mime_class_of(true, false), MimeClass::Directory);
    assert_eq!(mime_class_of(false, true), MimeClass::Image);
    assert_eq!(mime_class_of(false, false), MimeClass::Other);
    assert_eq!(mime_class_of(true, true), MimeClass::Directory);
}

#[test]
fn an_image_starts_with_a_pending_thumbnail() {
    let object =
        FileObject::new(object_info("/tmp/a.png", "a.png", MimeClass::Image), &Config::default());
    assert_eq!(object.mime_class(), MimeClass::Image);
    assert_eq!(*object.thumbnail(), ThumbnailState::Pending);
    assert_eq!(object.thumbnail_request(&Config::default()), decode_at("/tmp/a.png", 32));
}

#[test]
fn the_request_asks_for_the_configured_size() {
    let config = Config { icon_size: 96, ..Config::default() };
    let object = FileObject::new(object_info("/tmp/a.png", "a.png", MimeClass::Image), &config);
    assert_eq!(object.thumbnail_request(&config), decode_at("/tmp/a.png", 96));
}

#[test]
fn a_text_file_has_no_thumbnail_and_asks_for_none() {
    let object =
        FileObject::new(object_info("/tmp/a.txt", "a.txt", MimeClass::Other), &Config::default());
    assert_eq!(object.mime_class(), MimeClass::Other);
    assert_eq!(*object.thumbnail(), ThumbnailState::Unavailable);
    assert_eq!(object.thumbnail_request(&Config::default()), ThumbnailRequest::Unavailable);
}

#[test]
fn a_directory_has_no_thumbnail() {
    let object =
        FileObject::new(object_info("/tmp", "tmp", MimeClass::Directory), &Config::default());
    assert_eq!(object.mime_class(), MimeClass::Directory);
    assert_eq!(*object.thumbnail(), ThumbnailState::Unavailable);
    assert_eq!(object.thumbnail_request(&Config::default()), ThumbnailRequest::Unavailable);
}

#[test]
fn disabled_thumbnails_are_unavailable_from_the_start() {
    let config = Config { disable_thumbnails: true, ..Config::default() };
    let object = FileObject::new(object_info("/tmp/a.png", "a.png", MimeClass::Image), &config);
    assert_eq!(object.mime_class(), MimeClass::Image);
    assert_eq!(*object.thumbnail(), ThumbnailState::Unavailable);
    assert_eq!(object.thumbnail_request(&config), ThumbnailRequest::Unavailable);
}

#[test]
fn disabling_thumbnails_later_stops_requests_too() {
    let object =
        FileObject::new(object_info("/tmp/a.png", "a.png", MimeClass::Image), &Config::default());
    let disabled = Config { disable_thumbnails: true, ..Config::default() };
    assert_eq!(object.thumbnail_request(&disabled), ThumbnailRequest::Unavailable);
}

#[test]
fn an_image_without_a_local_path_is_pending_and_settles_without_decoding() {
    let remote = FileInfo {
        uri: "sftp://host/a.png".to_string(),
        path: None,
        parse_name: "sftp://host/a.png".to_string(),
        basename: Some("a.png".to_string()),
        relative_name: None,
        is_directory: false,
        is_image: true,
        generic_icon: None,
    };
    let mut object = FileObject::new(remote, &Config::default());
    assert_eq!(*object.thumbnail(), ThumbnailState::Pending);
    assert_eq!(object.thumbnail_request(&Config::default()), ThumbnailRequest::Unavailable);
    assert_eq!(object.resolve_thumbnail(ThumbnailResult::Unavailable), Delivery::Applied);
    assert_eq!(*object.thumbnail(), ThumbnailState::Unavailable);
    assert_eq!(object.icon_name(), "text/default");
    assert_eq!(object.path(), None);
}

#[test]
fn the_entry_keeps_what_it_was_made_of() {
    let object =
        FileObject::new(object_info("/tmp/a.txt", "a.txt", MimeClass::Other), &Config::default());
    assert_eq!(object.uri(), "file:///tmp/a.txt");
    assert_eq!(object.path(), Some(&"/tmp/a.txt".to_string()));
    assert_eq!(object.parse_name(), "/tmp/a.txt");
    assert_eq!(object.icon_name(), "x-generic");
}

#[test]
fn the_full_name_is_shown_outside_the_start_directory() {
    let object =
        FileObject::new(object_info("/tmp/a.txt", "a.txt", MimeClass::Other), &Config::default());
    assert_eq!(object.display_name(), "/tmp/a.txt");
}

#[test]
fn the_base_name_is_shown_when_asked_for() {
    let config = Config { basename: true, ..Config::default() };
    let object = FileObject::new(object_info("/tmp/a.txt", "a.txt", MimeClass::Other), &config);
    assert_eq!(object.display_name(), "a.txt");
    let object = FileObject::new(below_start("/home/u/sub/c.txt", "c.txt", "sub/c.txt"), &config);
    assert_eq!(object.display_name(), "c.txt");
}

#[test]
fn the_relative_name_is_shown_in_the_start_directory() {
    let object =
        FileObject::new(below_start("/home/u/a.txt", "a.txt", "a.txt"), &Config::default());
    assert_eq!(object.display_name(), "a.txt");
    assert_eq!(object.parse_name(), "/home/u/a.txt");
}

#[test]
fn the_relative_name_is_shown_below_the_start_directory() {
    let object =
        FileObject::new(below_start("/home/u/sub/c.txt", "c.txt", "sub/c.txt"), &Config::default());
    assert_eq!(object.display_name(), "sub/c.txt");
    assert_eq!(object.parse_name(), "/home/u/sub/c.txt");
}

#[test]
fn the_relative_name_stands_in_for_a_missing_base_name() {
    let mut info = below_start("/home/u/sub", "sub", "sub");
    info.basename = None;
    let config = Config { basename: true, ..Config::default() };
    assert_eq!(FileObject::new(info, &config).display_name(), "sub");
}

#[test]
fn the_full_name_stands_in_where_there_is_no_other() {
    let mut root = object_info("/", "", MimeClass::Directory);
    root.basename = None;
    let config = Config { basename: true, ..Config::default() };
    let object = FileObject::new(root, &config);
    assert_eq!(object.display_name(), "/");
}

#[test]
fn a_loader_gives_an_image_only_for_a_file_that_is_there_and_decodes() {
    assert_eq!(thumbnail_result(true, Some(small_image())), ThumbnailResult::Image(small_image()));
    assert_eq!(thumbnail_result(false, Some(small_image())), ThumbnailResult::Unavailable);
    assert_eq!(thumbnail_result(true, None), ThumbnailResult::Unavailable);
    assert_eq!(thumbnail_result(false, None), ThumbnailResult::Unavailable);
}

#[test]
fn a_pending_thumbnail_takes_the_image() {
    let mut object =
        FileObject::new(object_info("/tmp/a.png", "a.png", MimeClass::Image), &Config::default());
    assert_eq!(object.resolve_thumbnail(ThumbnailResult::Image(small_image())), Delivery::Applied);
    assert_eq!(*object.thumbnail(), ThumbnailState::Ready(small_image()));
    assert_eq!(object.thumbnail_request(&Config::default()), ThumbnailRequest::Unavailable);
    assert_eq!(object.display_name(), "/tmp/a.png");
}

#[test]
fn a_pending_thumbnail_takes_a_failure() {
    let mut object =
        FileObject::new(object_info("/tmp/a.png", "a.png", MimeClass::Image), &Config::default());
    assert_eq!(object.resolve_thumbnail(ThumbnailResult::Unavailable), Delivery::Applied);
    assert_eq!(*object.thumbnail(), ThumbnailState::Unavailable);
}

#[test]
fn a_settled_thumbnail_never_changes_again() {
    let mut object =
        FileObject::new(object_info("/tmp/a.png", "a.png", MimeClass::Image), &Config::default());
    object.resolve_thumbnail(ThumbnailResult::Image(small_image()));
    assert_eq!(object.resolve_thumbnail(ThumbnailResult::Unavailable), Delivery::Discarded);
    assert_eq!(*object.thumbnail(), ThumbnailState::Ready(small_image()));

    let mut other =
        FileObject::new(object_info("/tmp/b.png", "b.png", MimeClass::Image), &Config::default());
    other.resolve_thumbnail(ThumbnailResult::Unavailable);
    assert_eq!(other.resolve_thumbnail(ThumbnailResult::Image(small_image())), Delivery::Discarded);
    assert_eq!(*other.thumbnail(), ThumbnailState::Unavailable);
}

#[test]
fn a_result_for_a_file_without_thumbnail_is_discarded() {
    let mut object =
        FileObject::new(object_info("/tmp/a.txt", "a.txt", MimeClass::Other), &Config::default());
    assert_eq!(object.resolve_thumbnail(ThumbnailResult::Image(small_image())), Delivery::Discarded);
    assert_eq!(*object.thumbnail(), ThumbnailState::Unavailable);
}
