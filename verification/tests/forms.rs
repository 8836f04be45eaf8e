use doxle::auth::{
    profile_after_lookup, require_token, sign_in_after_authenticate, sign_in_after_profile_lookup,
    sign_in_fallback_profile, ProfileStep, SignInNext, User,
};
use doxle::labels::{
    can_create_project, create_button_label, shows_label_warning, Label, NewProjectForm,
};
use doxle::page_store::PageStore;
use doxle::share::ShareDialog;

#[test]
fn project_needs_a_label_and_no_creation_under_way() {
    assert!(!can_create_project(0, false));
    assert!(!can_create_project(2, true));
    assert!(can_create_project(1, false));
    assert_eq!(create_button_label(true, 3), "Creating...");
    assert_eq!(create_button_label(false, 0), "Add at least 1 label");
    assert_eq!(create_button_label(false, 2), "Create Project");
    assert!(shows_label_warning(0));
    assert!(!shows_label_warning(1));
}

#[test]
fn create_request_carries_the_form() {
    let mut form = NewProjectForm::new();
    form.project_name = "Site A".to_string();
    form.labels.push(Label { name: "wall".to_string(), color: "#f00".to_string() });
    let r = form.create_request();
    assert_eq!(r.name, "Site A");
    assert_eq!(r.project_type, "annotation");
    assert_eq!(r.labels.len(), 1);
    assert_eq!(r.labels[0].name, "wall");
    assert_eq!(r.labels[0].color, "#f00");
    assert_eq!(form.labels.len(), 1);
}

#[test]
fn sending_an_invitation_updates_the_dialog() {
    let mut d = ShareDialog::new();
    assert_eq!(d.begin_invite(), None);
    assert_eq!(d.error, "Please enter an email address");
    d.email = "a@b.co".to_string();
    assert_eq!(d.begin_invite(), Some("a@b.co".to_string()));
    assert!(d.sending_email && d.error.is_empty() && !d.email_sent);
    d.after_invite_sent("a@b.co".to_string());
    assert_eq!(d.pending_invites, vec!["a@b.co".to_string()]);
    assert!(d.email.is_empty() && d.error.is_empty() && d.email_sent && !d.sending_email);
    d.clear_sent_notice();
    assert!(!d.email_sent);
}

#[test]
fn failed_invitation_and_closing() {
    let mut d = ShareDialog::new();
    d.email = "x@y.z".to_string();
    d.begin_invite();
    d.after_invite_failed("timeout");
    assert_eq!(d.error, "Failed to send email: timeout");
    assert!(!d.sending_email);
    assert_eq!(d.email, "x@y.z");
    d.pending_invites.push("old@y.z".to_string());
    d.copied = true;
    d.close();
    assert!(d.email.is_empty() && d.error.is_empty() && !d.copied && !d.email_sent);
    assert_eq!(d.pending_invites.len(), 1);
}

#[test]
fn sign_in_decisions() {
    assert!(matches!(sign_in_after_authenticate(Ok(())), SignInNext::FetchProfile));
    match sign_in_after_authenticate(Err("bad".to_string())) {
        SignInNext::ShowError(m) => assert_eq!(m, "Sign in failed: bad"),
        SignInNext::FetchProfile => panic!("a refused sign-in must show an error"),
    }
    assert!(sign_in_after_profile_lookup(true, "ann@x.io").is_none());
    let r = sign_in_after_profile_lookup(false, "ann@x.io").unwrap();
    assert_eq!((r.name.as_str(), r.email.as_str(), r.role.as_str()), ("ann", "ann@x.io", "user"));
    let f = sign_in_fallback_profile("solo");
    assert_eq!(f.name, "solo");
}

#[test]
fn profile_lookup_and_token() {
    assert_eq!(require_token(Some("t".to_string())), Ok("t".to_string()));
    assert_eq!(require_token(None), Err("No auth token found"));
    let u = User { user_id: "1".into(), email: "e@x".into(), role: "admin".into(), created_at: "now".into() };
    match profile_after_lookup(Ok(u), "e@x") {
        ProfileStep::Use(v) => assert_eq!(v.role, "admin"),
        ProfileStep::Create(_) => panic!("an existing profile is used"),
    }
    match profile_after_lookup(Err("404".into()), "new@x") {
        ProfileStep::Create(r) => assert_eq!((r.email.as_str(), r.role.as_str()), ("new@x", "annotator")),
        ProfileStep::Use(_) => panic!("a missing profile is created"),
    }
}

#[test]
fn page_store_replaces_outlines_and_appends_segments() {
    let mut outlines: PageStore<Vec<(i32, i32)>> = PageStore::new();
    outlines.insert("2".to_string(), vec![(0, 0), (1, 0), (1, 1)]);
    outlines.insert("1".to_string(), vec![(5, 5)]);
    outlines.insert("2".to_string(), vec![(9, 9)]);
    assert_eq!(outlines.entries.len(), 2);
    assert_eq!(outlines.get("2"), Some(&vec![(9, 9)]));
    assert_eq!(outlines.get("1"), Some(&vec![(5, 5)]));
    assert_eq!(outlines.get("3"), None);
    assert_eq!(outlines.position("1"), Some(1));

    let mut segments: PageStore<Vec<((i32, i32), (i32, i32))>> = PageStore::new();
    segments.append("4".to_string(), ((0, 0), (1, 1)));
    segments.append("4".to_string(), ((2, 2), (3, 3)));
    segments.append("5".to_string(), ((7, 7), (8, 8)));
    assert_eq!(segments.get("4"), Some(&vec![((0, 0), (1, 1)), ((2, 2), (3, 3))]));
    assert_eq!(segments.get("5").map(|v| v.len()), Some(1));
}
