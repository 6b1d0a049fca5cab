use ripdrag::config::Config;
use ripdrag::drag_source::{
    generate_content_provider, prepare_drag, DragOrigin, DragPayload, Selection,
};
use ripdrag::file_model::{generate_file_model, FileModel};
use ripdrag::file_object::FileInfo;

fn drag_model(names: &[&str]) -> FileModel {
    let infos: Vec<FileInfo> = names
        .iter()
        .map(|name| FileInfo {
            uri: format!("file:///{}", name),
            path: Some(format!("/{}", name)),
            parse_name: format!("/{}", name),
            basename: Some(name.to_string()),
            relative_name: None,
            is_directory: false,
            is_image: false,
            generic_icon: None,
        })
        .collect();
    generate_file_model(infos, &Config::default())
}

fn selection_of(indices: &[usize]) -> Selection {
    let mut selection = Selection::new();
    for index in indices {
        selection.select(*index);
    }
    selection
}

fn row(name: &str) -> DragOrigin {
    DragOrigin::Row(format!("file:///{}", name))
}

fn uri_list(text: &str) -> Option<DragPayload> {
    Some(DragPayload { mime_type: "text/uri-list".to_string(), text: text.to_string() })
}

#[test]
fn content_provider_of_nothing_is_none() {
    assert_eq!(generate_content_provider(&Vec::new()), None);
}

#[test]
fn content_provider_is_a_uri_list() {
    let paths = vec!["file:///A".to_string(), "file:///B".to_string()];
    assert_eq!(generate_content_provider(&paths), uri_list("file:///A\nfile:///B"));
}

#[test]
fn dragging_an_unselected_row_takes_that_row_and_clears_the_selection() {
    let model = drag_model(&["A", "B", "C"]);
    let mut selection = selection_of(&[0, 2]);
    let plan = prepare_drag(&model, &mut selection, &row("B"), &Config::default());
    assert!(plan.claimed);
    assert_eq!(plan.uris, vec!["file:///B".to_string()]);
    assert_eq!(plan.payload, uri_list("file:///B"));
    assert!(plan.selection_cleared);
    assert!(plan.begins());
    assert!(!selection.is_selected(0));
    assert!(!selection.is_selected(1));
    assert!(!selection.is_selected(2));
}

#[test]
fn dragging_a_selected_row_takes_the_selection() {
    let model = drag_model(&["A", "B", "C"]);
    let mut selection = selection_of(&[0, 2]);
    let plan = prepare_drag(&model, &mut selection, &row("A"), &Config::default());
    assert!(plan.claimed);
    assert_eq!(plan.uris, vec!["file:///A".to_string(), "file:///C".to_string()]);
    assert_eq!(plan.payload, uri_list("file:///A\nfile:///C"));
    assert!(!plan.selection_cleared);
    assert!(selection.is_selected(0));
    assert!(!selection.is_selected(1));
    assert!(selection.is_selected(2));
}

#[test]
fn the_selection_is_carried_in_collection_order() {
    let model = drag_model(&["A", "B", "C", "D"]);
    let mut selection = selection_of(&[3, 1, 0, 1]);
    let plan = prepare_drag(&model, &mut selection, &row("D"), &Config::default());
    assert_eq!(
        plan.uris,
        vec!["file:///A".to_string(), "file:///B".to_string(), "file:///D".to_string()]
    );
    assert_eq!(plan.payload, uri_list("file:///A\nfile:///B\nfile:///D"));
}

#[test]
fn selected_positions_beyond_the_collection_count_for_nothing() {
    let model = drag_model(&["A", "B"]);
    let mut selection = selection_of(&[1, 7]);
    let plan = prepare_drag(&model, &mut selection, &row("B"), &Config::default());
    assert_eq!(plan.uris, vec!["file:///B".to_string()]);
    assert!(!plan.selection_cleared);
}

#[test]
fn dragging_with_nothing_selected_takes_the_row() {
    let model = drag_model(&["A", "B", "C"]);
    let mut selection = Selection::new();
    let plan = prepare_drag(&model, &mut selection, &row("C"), &Config::default());
    assert_eq!(plan.uris, vec!["file:///C".to_string()]);
    assert!(plan.selection_cleared);
    assert!(plan.begins());
}

#[test]
fn drag_all_takes_the_whole_collection_from_any_row() {
    let model = drag_model(&["A", "B", "C"]);
    let all = Config { all: true, ..Config::default() };
    let compact = Config { all_compact: true, ..Config::default() };
    for config in [all, compact] {
        for name in ["A", "B", "C"] {
            let mut selection = selection_of(&[1]);
            let plan = prepare_drag(&model, &mut selection, &row(name), &config);
            assert!(plan.claimed);
            assert_eq!(plan.payload, uri_list("file:///A\nfile:///B\nfile:///C"));
            assert!(!plan.selection_cleared);
            assert!(selection.is_selected(1));
        }
    }
}

#[test]
fn the_drag_all_control_takes_the_whole_collection() {
    let model = drag_model(&["A", "B", "C"]);
    let mut selection = selection_of(&[2]);
    let plan = prepare_drag(&model, &mut selection, &DragOrigin::AllControl, &Config::default());
    assert_eq!(plan.payload, uri_list("file:///A\nfile:///B\nfile:///C"));
    assert!(!plan.selection_cleared);
    assert!(selection.is_selected(2));
}

#[test]
fn no_drag_begins_from_an_empty_collection() {
    let model = FileModel::new();
    let mut selection = Selection::new();
    let plan = prepare_drag(&model, &mut selection, &DragOrigin::AllControl, &Config::default());
    assert!(plan.claimed);
    assert_eq!(plan.uris, Vec::<String>::new());
    assert_eq!(plan.payload, None);
    assert!(!plan.begins());
}

#[test]
fn a_row_that_names_a_selected_file_twice_listed_counts_as_selected() {
    let model = drag_model(&["A", "B", "A"]);
    let mut selection = selection_of(&[2]);
    let plan = prepare_drag(&model, &mut selection, &row("A"), &Config::default());
    assert_eq!(plan.uris, vec!["file:///A".to_string()]);
    assert!(!plan.selection_cleared);
    assert!(selection.is_selected(2));
}

#[test]
fn selection_remembers_what_was_selected() {
    let mut selection = Selection::new();
    assert!(!selection.is_selected(0));
    selection.select(4);
    selection.select(0);
    assert!(selection.is_selected(4));
    assert!(selection.is_selected(0));
    assert!(!selection.is_selected(1));
    selection.unselect_all();
    assert!(!selection.is_selected(4));
    assert!(!selection.is_selected(0));
}

#[test]
fn the_payload_carries_the_uris_that_resolved() {
    let resolved = vec![Some("file:///A".to_string()), None, Some("file:///C".to_string())];
    assert_eq!(ripdrag::drag_source::payload_of_resolved(resolved), uri_list("file:///A\nfile:///C"));
}

#[test]
fn there_is_no_payload_where_no_uri_resolved() {
    assert_eq!(ripdrag::drag_source::payload_of_resolved(vec![None, None]), None);
    assert_eq!(ripdrag::drag_source::payload_of_resolved(Vec::new()), None);
}
