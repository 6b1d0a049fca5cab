use ripdrag::config::Config;
use ripdrag::file_object::{FileInfo, FileObject};
use ripdrag::list_view::{
    click_action, label_slot, row_layout, row_text, ClickAction, RowLayout, RowText, Slot,
};

#[test]
fn a_row_shows_the_label_in_the_centre() {
    let config = Config::default();
    assert_eq!(
        row_layout(&config),
        RowLayout { label: Slot::Center, thumbnail: Slot::Start, label_visible: true }
    );
    assert_eq!(label_slot(&config), Slot::Center);
}

#[test]
fn a_row_of_icons_hides_the_label_at_the_start() {
    let config = Config { icons_only: true, ..Config::default() };
    assert_eq!(
        row_layout(&config),
        RowLayout { label: Slot::Start, thumbnail: Slot::Center, label_visible: false }
    );
    assert_eq!(label_slot(&config), Slot::Start);
}

#[test]
fn the_tooltip_is_always_the_full_name() {
    let info = FileInfo {
        uri: "file:///work/a.txt".to_string(),
        path: Some("/work/a.txt".to_string()),
        parse_name: "/work/a.txt".to_string(),
        basename: Some("a.txt".to_string()),
        relative_name: Some("a.txt".to_string()),
        is_directory: false,
        is_image: false,
        generic_icon: None,
    };
    let object = FileObject::new(info, &Config::default());
    assert_eq!(
        row_text(&object),
        RowText { label: "a.txt".to_string(), tooltip: "/work/a.txt".to_string() }
    );
}

#[test]
fn a_plain_click_opens_the_file() {
    let path = "/tmp/a.txt".to_string();
    assert_eq!(
        click_action(&Config::default(), false, false, Some(&path)),
        ClickAction::Open("/tmp/a.txt".to_string())
    );
}

#[test]
fn a_click_with_control_or_shift_is_ignored() {
    let path = "/tmp/a.txt".to_string();
    assert_eq!(click_action(&Config::default(), true, false, Some(&path)), ClickAction::Ignore);
    assert_eq!(click_action(&Config::default(), false, true, Some(&path)), ClickAction::Ignore);
    assert_eq!(click_action(&Config::default(), true, true, Some(&path)), ClickAction::Ignore);
}

#[test]
fn a_click_on_a_file_without_local_path_is_ignored() {
    assert_eq!(click_action(&Config::default(), false, false, None), ClickAction::Ignore);
}

#[test]
fn clicks_can_be_switched_off() {
    let path = "/tmp/a.txt".to_string();
    let config = Config { no_click: true, ..Config::default() };
    assert_eq!(click_action(&config, false, false, Some(&path)), ClickAction::Ignore);
}

#[test]
fn a_row_below_the_start_directory_shows_the_relative_name() {
    let info = FileInfo {
        uri: "file:///home/u/sub/c.txt".to_string(),
        path: Some("/home/u/sub/c.txt".to_string()),
        parse_name: "/home/u/sub/c.txt".to_string(),
        basename: Some("c.txt".to_string()),
        relative_name: Some("sub/c.txt".to_string()),
        is_directory: false,
        is_image: false,
        generic_icon: None,
    };
    let config = Config::default();
    let object = FileObject::new(info, &config);
    assert_eq!(
        row_text(&object),
        RowText { label: "sub/c.txt".to_string(), tooltip: "/home/u/sub/c.txt".to_string() }
    );
    assert_eq!(label_slot(&config), Slot::Center);
}
