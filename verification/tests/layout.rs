use querry::icons::find_matching_icons;
use querry::layout::{
    folder_after_click, list_is_shown, marks_after_click, requests_visible,
    validate_paned_primary_position, validate_paned_secondary_position, SidebarMarks,
    SidebarPage, PRIMARY_MAX, PRIMARY_MIN, SECONDARY_MIN,
};
use querry::search::contains_text;

#[test]
fn primary_divider_is_held_between_its_bounds() {
    assert_eq!(PRIMARY_MIN, 300);
    assert_eq!(PRIMARY_MAX, 700);
    assert_eq!(validate_paned_primary_position(299), 300);
    assert_eq!(validate_paned_primary_position(300), 300);
    assert_eq!(validate_paned_primary_position(450), 450);
    assert_eq!(validate_paned_primary_position(700), 700);
    assert_eq!(validate_paned_primary_position(701), 700);
    assert_eq!(validate_paned_primary_position(i32::MIN), 300);
    assert_eq!(validate_paned_primary_position(i32::MAX), 700);
}

#[test]
fn secondary_divider_has_a_lower_bound_only() {
    assert_eq!(SECONDARY_MIN, 250);
    assert_eq!(validate_paned_secondary_position(249), 250);
    assert_eq!(validate_paned_secondary_position(250), 250);
    assert_eq!(validate_paned_secondary_position(9000), 9000);
    assert_eq!(validate_paned_secondary_position(-5), 250);
}

#[test]
fn sidebar_pages_have_names_and_one_mark() {
    assert_eq!(SidebarPage::Rest.page_name(), "rest_page");
    assert_eq!(SidebarPage::Realtime.page_name(), "realtime_page");
    assert_eq!(SidebarPage::Settings.page_name(), "settings_page");
    assert_eq!(
        marks_after_click(SidebarPage::Rest),
        SidebarMarks { rest: true, realtime: false, settings: false }
    );
    assert_eq!(
        marks_after_click(SidebarPage::Realtime),
        SidebarMarks { rest: false, realtime: true, settings: false }
    );
    assert_eq!(
        marks_after_click(SidebarPage::Settings),
        SidebarMarks { rest: false, realtime: false, settings: true }
    );
}

#[test]
fn folder_toggles_between_two_icons() {
    assert_eq!(folder_after_click(true), ("folder-visiting-symbolic", false));
    assert_eq!(folder_after_click(false), ("folder-drag-accept-symbolic", true));
}

#[test]
fn requests_show_under_an_open_folder_only() {
    assert!(!requests_visible(None));
    assert!(!requests_visible(Some("folder-visiting-symbolic")));
    assert!(requests_visible(Some("folder-drag-accept-symbolic")));
    assert!(requests_visible(Some("anything else")));
    assert!(requests_visible(Some("")));
}

#[test]
fn list_is_shown_once_there_is_an_item() {
    assert!(!list_is_shown(0));
    assert!(list_is_shown(1));
    assert!(list_is_shown(u32::MAX));
}

#[test]
fn contains_text_minds_the_case() {
    assert!(contains_text("../icons/folder.svg", "folder"));
    assert!(!contains_text("../icons/folder.svg", "Folder"));
    assert!(contains_text("../icons/folder.svg", ""));
    assert!(contains_text("", ""));
    assert!(!contains_text("", "x"));
    assert!(contains_text("abc", "abc"));
    assert!(!contains_text("abc", "abcd"));
    assert!(contains_text("aé☃b", "é☃"));
}

#[test]
fn matching_icons_are_found_by_place() {
    let paths = vec![
        "../icons/folder.svg".to_string(),
        "../icons/file.svg".to_string(),
        "../icons/folder-open.svg".to_string(),
        "../icons/Folder.svg".to_string(),
    ];
    assert_eq!(find_matching_icons("folder", &paths), vec![0, 2]);
    assert_eq!(find_matching_icons("file", &paths), vec![1]);
    assert_eq!(find_matching_icons(".svg", &paths), vec![0, 1, 2, 3]);
    assert_eq!(find_matching_icons("", &paths), vec![0, 1, 2, 3]);
    assert_eq!(find_matching_icons("png", &paths), Vec::<usize>::new());
    assert_eq!(find_matching_icons("x", &Vec::new()), Vec::<usize>::new());
}
