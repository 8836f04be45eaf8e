use doxle::projects::{
    create_project_name, filter_projects, CreateProjectRequest, Project, ProjectStore,
    UpdateProjectRequest,
};
use doxle::projects_page::{
    copy_project_link, delete_failure_message, escape_js_string, open_project_in_new_tab,
    project_blocks_path, project_menu_items, projects_heading, rename_failure_message,
    rename_success_message, ProjectsController, RenameSubmit,
};

fn project(id: &str, name: &str) -> Project {
    Project {
        project_id: id.to_string(),
        project_name: name.to_string(),
        project_company: None,
        project_status: String::new(),
        project_address: None,
        project_email: Some("a@b.c".to_string()),
        project_owner: String::new(),
        project_members: vec!["m1".to_string()],
        project_start_date: None,
        project_end_date: None,
        project_description: None,
        project_budget: None,
        project_client_name: None,
        project_created_at: "2024-01-01T00:00:00Z".to_string(),
        project_updated_at: String::new(),
    }
}

fn names(v: &[Project]) -> Vec<String> {
    v.iter().map(|p| p.project_name.clone()).collect()
}

#[test]
fn clone_keeps_every_field() {
    let p = project("1", "House");
    let c = p.clone();
    assert_eq!(c.project_id, "1");
    assert_eq!(c.project_members, vec!["m1".to_string()]);
    assert_eq!(c.project_email.as_deref(), Some("a@b.c"));
    assert_eq!(c.project_created_at, p.project_created_at);
}

#[test]
fn search_ignores_case() {
    let ps = vec![project("1", "Roof Plan"), project("2", "Kitchen"), project("3", "ROOFTOP")];
    assert_eq!(names(&filter_projects(&ps, "roof")), vec!["Roof Plan", "ROOFTOP"]);
    assert_eq!(names(&filter_projects(&ps, "ROOF")), vec!["Roof Plan", "ROOFTOP"]);
    assert_eq!(names(&filter_projects(&ps, "")), vec!["Roof Plan", "Kitchen", "ROOFTOP"]);
    assert!(filter_projects(&ps, "garage").is_empty());
    let accented = vec![project("9", "ÉTÉ House")];
    assert_eq!(names(&filter_projects(&accented, "été")), vec!["ÉTÉ House"]);
}

#[test]
fn store_load_create_delete() {
    let mut s = ProjectStore::new();
    s.begin_load();
    assert!(s.loading);
    s.state_load_projects(Ok(vec![project("1", "A"), project("2", "B"), project("1", "C")]));
    assert!(!s.loading);
    assert_eq!(names(&s.projects), vec!["A", "B", "C"]);
    s.begin_load();
    s.state_load_projects(Err("boom".to_string()));
    assert!(!s.loading);
    assert_eq!(s.projects.len(), 3);
    s.state_create_project(project("3", "D"));
    assert_eq!(names(&s.projects), vec!["A", "B", "C", "D"]);
    s.delete_project("1");
    assert_eq!(names(&s.projects), vec!["B", "D"]);
    s.delete_project("nope");
    assert_eq!(names(&s.projects), vec!["B", "D"]);
}

#[test]
fn rename_optimistic_then_confirm() {
    let mut s = ProjectStore::new();
    s.state_load_projects(Ok(vec![project("1", "Old"), project("2", "Other")]));
    let old = s.state_rename_project("1", "New");
    assert_eq!(old.as_deref(), Some("Old"));
    assert_eq!(names(&s.projects), vec!["New", "Other"]);
    let mut updated = project("1", "New");
    updated.project_status = "active".to_string();
    s.confirm_rename("1", &updated);
    assert_eq!(s.projects[0].project_status, "active");
    assert_eq!(names(&s.projects), vec!["New", "Other"]);
}

#[test]
fn rename_rolls_back_on_failure() {
    let mut s = ProjectStore::new();
    s.state_load_projects(Ok(vec![project("1", "Old"), project("2", "Other")]));
    let old = s.state_rename_project("1", "New");
    s.rollback_rename("1", old);
    assert_eq!(names(&s.projects), vec!["Old", "Other"]);
    let none = s.state_rename_project("9", "X");
    assert_eq!(none, None);
    s.rollback_rename("9", none);
    assert_eq!(names(&s.projects), vec!["Old", "Other"]);
}

#[test]
fn requests_and_names() {
    let r = CreateProjectRequest::new("N".to_string(), Some("Co".to_string()), None);
    assert_eq!(r.project_name, "N");
    assert_eq!(r.project_company.as_deref(), Some("Co"));
    assert!(r.project_description.is_none());
    assert_eq!(UpdateProjectRequest::rename("Z".to_string()).project_name.as_deref(), Some("Z"));
    assert_eq!(create_project_name("  Villa  ").as_deref(), Some("Villa"));
    assert_eq!(create_project_name(" \t "), None);
}

#[test]
fn controller_menu_and_rename_dialog() {
    let mut c = ProjectsController::use_projects_controller(
        true,
        false,
        vec![project("1", "Alpha"), project("2", "Beta")],
    );
    assert!(c.is_list_mode());
    assert!(!c.has_no_search_results());
    c.toggle_project_menu("1".to_string());
    assert_eq!(c.open_menu_id.as_deref(), Some("1"));
    c.toggle_project_menu("2".to_string());
    assert_eq!(c.open_menu_id.as_deref(), Some("2"));
    c.toggle_project_menu("2".to_string());
    assert!(c.open_menu_id.is_none());
    c.open_context_menu("1".to_string());
    assert!(!c.on_project_click());
    assert!(c.on_project_click());
    c.open_context_menu("1".to_string());
    c.begin_project_rename("1".to_string(), "Alpha".to_string());
    assert!(c.open_menu_id.is_none());
    assert_eq!(c.rename_input, "Alpha");
    c.rename_input = "   ".to_string();
    match c.submit_project_rename("Alpha") {
        RenameSubmit::Rejected(m) => assert_eq!(m, "Project name is required"),
        _ => panic!("expected a rejection"),
    }
    assert!(c.renaming_project.is_some());
    c.rename_input = " Alpha ".to_string();
    assert!(matches!(c.submit_project_rename("Alpha"), RenameSubmit::Unchanged));
    assert!(c.renaming_project.is_none());
    c.begin_project_rename("1".to_string(), "Alpha".to_string());
    c.rename_input = " Gamma".to_string();
    match c.submit_project_rename("Alpha") {
        RenameSubmit::Rename(n) => assert_eq!(n, "Gamma"),
        _ => panic!("expected a rename"),
    }
    assert!(c.renaming_project.is_none());
}

#[test]
fn controller_search() {
    let mut c = ProjectsController::use_projects_controller(false, true, vec![project("1", "Alpha")]);
    c.open_search();
    c.refresh(vec![project("1", "Alpha")], "zzz".to_string());
    assert!(c.has_no_search_results());
    c.close_search();
    assert!(!c.search_active);
    assert_eq!(c.search_query, "");
    c.open_context_menu("1".to_string());
    c.delete_project();
    assert!(c.open_menu_id.is_none());
    c.begin_project_rename("1".to_string(), "Alpha".to_string());
    c.cancel_project_rename();
    assert!(c.renaming_project.is_none());
    c.open_context_menu("1".to_string());
    c.close_project_menu();
    assert!(c.open_menu_id.is_none());
}

#[test]
fn links_and_messages() {
    assert_eq!(project_blocks_path("p1"), "/projects/p1/blocks");
    assert_eq!(open_project_in_new_tab(Some("https://doxle.ai"), "p1"), "https://doxle.ai/projects/p1/blocks");
    assert_eq!(open_project_in_new_tab(None, "p1"), "/projects/p1/blocks");
    assert_eq!(escape_js_string(r#"a\b"c"#), r#"a\\b\"c"#);
    let original = r#"x"y\z"#;
    assert_eq!(escape_js_string(original), original.replace('\\', "\\\\").replace('"', "\\\""));
    assert_eq!(
        copy_project_link(Some("https://x"), "q\"1"),
        "navigator.clipboard && navigator.clipboard.writeText(\"https://x/projects/q\\\"1/blocks\");"
    );
    assert_eq!(rename_success_message(), "Project renamed");
    assert_eq!(rename_failure_message("503"), "Failed to rename project: 503");
    assert_eq!(delete_failure_message("x"), "Failed to delete project: x");
    assert_eq!(projects_heading(Some("Sam")), "Sam's Projects");
    assert_eq!(projects_heading(None), "My Projects");
}

#[test]
fn project_menu_filter() {
    let all = project_menu_items("");
    assert!(all.show_rename && all.show_open_new_tab && all.show_copy_link && all.show_delete);
    assert!(all.show_first_divider && all.show_second_divider && all.show_any_items);
    let only_delete = project_menu_items("  DEL ");
    assert!(!only_delete.show_rename && only_delete.show_delete);
    assert!(!only_delete.show_first_divider && !only_delete.show_second_divider);
    let link = project_menu_items("link");
    assert!(link.show_copy_link && !link.show_open_new_tab);
    assert!(!link.show_first_divider && !link.show_second_divider && link.show_any_items);
    let none = project_menu_items("zzz");
    assert!(!none.show_any_items);
}
