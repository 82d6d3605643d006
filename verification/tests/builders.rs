use release_client::page::Page;
use release_client::params::{Param, ParamValue};
use release_client::repos::RepoIdentity;

fn is_uint(p: &Param, name: &str, v: u64) -> bool {
    p.name == name && matches!(p.value, ParamValue::UInt(n) if n == v)
}

fn is_text(p: &Param, name: &str, v: &str) -> bool {
    p.name == name && matches!(&p.value, ParamValue::Text(s) if s == v)
}

fn is_flag(p: &Param, name: &str, v: bool) -> bool {
    p.name == name && matches!(p.value, ParamValue::Flag(b) if b == v)
}

#[test]
fn list_no_setters_empty_bag() {
    let repo = RepoIdentity::new(String::from("owner"), String::from("repo"));
    let bag = repo.releases().list().query_params();
    assert_eq!(bag.len(), 0);
}

#[test]
fn list_both_fields_set() {
    let repo = RepoIdentity::new(String::from("owner"), String::from("repo"));
    let bag = repo.releases().list().per_page(100).page(5).query_params();
    assert_eq!(bag.len(), 2);
    assert!(is_uint(&bag[0], "per_page", 100));
    assert!(is_uint(&bag[1], "page", 5));
}

#[test]
fn list_only_per_page() {
    let repo = RepoIdentity::new(String::from("owner"), String::from("repo"));
    let bag = repo.releases().list().per_page(30).query_params();
    assert_eq!(bag.len(), 1);
    assert!(is_uint(&bag[0], "per_page", 30));
}

#[test]
fn list_only_page() {
    let repo = RepoIdentity::new(String::from("owner"), String::from("repo"));
    let bag = repo.releases().list().page(2).query_params();
    assert_eq!(bag.len(), 1);
    assert!(is_uint(&bag[0], "page", 2));
}

#[test]
fn list_set_field_twice_last_wins() {
    let repo = RepoIdentity::new(String::from("owner"), String::from("repo"));
    let bag = repo.releases().list().page(1).page(7).query_params();
    assert_eq!(bag.len(), 1);
    assert!(is_uint(&bag[0], "page", 7));
}

#[test]
fn create_set_field_twice_last_wins() {
    let repo = RepoIdentity::new(String::from("owner"), String::from("repo"));
    let handler = repo.releases();
    let bag = handler
        .create("v2.0.0")
        .target_commitish("develop")
        .target_commitish("main")
        .body_params();
    assert_eq!(bag.len(), 2);
    assert!(is_text(&bag[0], "tag_name", "v2.0.0"));
    assert!(is_text(&bag[1], "target_commitish", "main"));
}

#[test]
fn create_only_tag() {
    let repo = RepoIdentity::new(String::from("owner"), String::from("repo"));
    let handler = repo.releases();
    let bag = handler.create("v1.0.0").body_params();
    assert_eq!(bag.len(), 1);
    assert!(is_text(&bag[0], "tag_name", "v1.0.0"));
}

#[test]
fn create_with_target_and_draft() {
    let repo = RepoIdentity::new(String::from("owner"), String::from("repo"));
    let handler = repo.releases();
    let bag = handler
        .create("v1.0.0")
        .target_commitish("main")
        .draft(false)
        .body_params();
    assert_eq!(bag.len(), 3);
    assert!(is_text(&bag[0], "tag_name", "v1.0.0"));
    assert!(is_text(&bag[1], "target_commitish", "main"));
    assert!(is_flag(&bag[2], "draft", false));
    assert!(bag.iter().all(|p| p.name != "name"));
    assert!(bag.iter().all(|p| p.name != "body"));
    assert!(bag.iter().all(|p| p.name != "prerelease"));
}

#[test]
fn create_all_fields_set() {
    let repo = RepoIdentity::new(String::from("owner"), String::from("repo"));
    let handler = repo.releases();
    let bag = handler
        .create("v1.0.0")
        .target_commitish("main")
        .name("Version 1.0.0")
        .body("Announcing 1.0.0!")
        .draft(false)
        .prerelease(true)
        .body_params();
    assert_eq!(bag.len(), 6);
    assert!(is_text(&bag[0], "tag_name", "v1.0.0"));
    assert!(is_text(&bag[1], "target_commitish", "main"));
    assert!(is_text(&bag[2], "name", "Version 1.0.0"));
    assert!(is_text(&bag[3], "body", "Announcing 1.0.0!"));
    assert!(is_flag(&bag[4], "draft", false));
    assert!(is_flag(&bag[5], "prerelease", true));
}

#[test]
fn paths_match_template() {
    let repo = RepoIdentity::new(String::from("owner"), String::from("repo"));
    let handler = repo.releases();
    assert_eq!(handler.list().path(), "/repos/owner/repo/releases");
    assert_eq!(handler.create("v1.0.0").path(), "/repos/owner/repo/releases");
}

#[test]
fn path_with_empty_names() {
    let repo = RepoIdentity::new(String::new(), String::new());
    assert_eq!(repo.releases().list().path(), "/repos///releases");
}

#[test]
fn next_page_request_reuses_scope() {
    let repo = RepoIdentity::new(String::from("owner"), String::from("repo"));
    let handler = repo.releases();
    let first = handler.list().per_page(100).page(5);
    let first_path = first.path();

    let response: Page<u64> = Page::new(vec![10, 11, 12], Some(6));
    let next = response.next_page_number().expect("a next page was advertised");
    assert_eq!(next, 6);

    let follow_up = handler.list().per_page(100).page(next);
    assert_eq!(follow_up.path(), first_path);
    let bag = follow_up.query_params();
    assert_eq!(bag.len(), 2);
    assert!(is_uint(&bag[0], "per_page", 100));
    assert!(is_uint(&bag[1], "page", 6));
}

#[test]
fn page_hands_items_out_in_order() {
    let page: Page<u64> = Page::new(vec![3, 1, 2], None);
    assert!(page.next_page_number().is_none());
    assert_eq!(page.into_items(), vec![3, 1, 2]);
}

#[test]
fn identity_getters() {
    let repo = RepoIdentity::new(String::from("octo"), String::from("cat"));
    assert_eq!(repo.owner(), "octo");
    assert_eq!(repo.repo(), "cat");
}
