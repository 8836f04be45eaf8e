use doxle::auth::{
    canonical_redirect, capture_access_token, home_redirects_to_signup, legal_consent_agree,
    login_error_message, sign_in_error_message, missing_profile_message, prefill_invite_code, profile_name_from_email,
    protected_route, role_from_signup, signup_error_message, validate_signup, ConsentAction,
    CreateUserRequest, RouteDecision, SignupFormError, SignupStage, UserRole,
};
use doxle::comment::Comment;
use doxle::dates::{format_date, format_relative_time};
use doxle::labels::{create_project_error_message, Label, NewProjectForm};
use doxle::letter_cycle::{letter_cycle_step, next_cycle_step, LoadingClass, CYCLE_STEPS, LOADING_PHASE};
use doxle::media::{default_media_type, Gallery};
use doxle::navbar::{
    avatar_initial, breadcrumbs, sidebar_toggle_title, tool_button_class, AnnotationTool,
    NavbarContext,
};
use doxle::share::{
    check_invite_email, copy_link_action, copy_link_label, invite_button_disabled,
    invite_button_label, invite_link, pending_invite_emails, send_invite_error_message,
    CopyLinkAction, InviteSummary,
};
use doxle::upload::{
    can_submit_collect_email, can_submit_plans, complete_multipart_upload_request,
    complete_single_upload_request, create_public_project, etag_value, has_email, has_name,
    initiate_upload_request, listed_file_count, part_range, submit_button_label,
    upload_content_type, upload_draft_storage_enabled, CompletedPart, UploadTally,
    UploadedFileInfo, CHUNK_SIZE,
};

fn file(id: &str) -> UploadedFileInfo {
    UploadedFileInfo {
        image_id: id.to_string(),
        file_name: format!("{}.pdf", id),
        url: format!("https://cdn/{}", id),
        content_type: "application/pdf".to_string(),
        file_size: 1024,
    }
}

#[test]
fn signup_validation() {
    assert_eq!(validate_signup("secret12", "secret13"), Err(SignupFormError::PasswordsDiffer));
    assert_eq!(validate_signup("short", "short"), Err(SignupFormError::PasswordTooShort));
    assert_eq!(validate_signup("éééé", "éééé"), Err(SignupFormError::PasswordTooShort));
    assert_eq!(validate_signup("éééééééé", "éééééééé"), Ok(()));
    assert_eq!(validate_signup("1234567", "1234567"), Err(SignupFormError::PasswordTooShort));
    assert_eq!(validate_signup("12345678", "12345678"), Ok(()));
    assert_eq!(SignupFormError::PasswordsDiffer.message(), "Passwords do not match");
    assert_eq!(SignupFormError::PasswordTooShort.message(), "Password must be at least 8 characters");
}

#[test]
fn signup_roles_and_messages() {
    assert_eq!(role_from_signup(Some("builder")), UserRole::Builder);
    assert_eq!(role_from_signup(Some("admin")), UserRole::Admin);
    assert_eq!(role_from_signup(Some("Admin")), UserRole::Annotator);
    assert_eq!(role_from_signup(None), UserRole::Annotator);
    assert_eq!(signup_error_message(SignupStage::Signup, "x"), "Signup failed: x");
    assert_eq!(signup_error_message(SignupStage::Authenticate, "x"), "Authentication failed: x");
    assert_eq!(signup_error_message(SignupStage::CreateProfile, "x"), "Failed to create profile: x");
    let r = CreateUserRequest::annotator("a@b.c");
    assert_eq!((r.email.as_str(), r.role.as_str()), ("a@b.c", "annotator"));
}

#[test]
fn invite_codes() {
    assert_eq!(prefill_invite_code(Some("ABC"), Some("DEF"), Some("GHI")).as_deref(), Some("ABC"));
    assert_eq!(prefill_invite_code(None, Some("DEF"), None).as_deref(), Some("DEF"));
    assert_eq!(prefill_invite_code(Some("  "), Some("DEF"), Some("GHI")).as_deref(), Some("GHI"));
    assert_eq!(prefill_invite_code(None, None, Some(" ")), None);
    assert_eq!(capture_access_token(Some("tok"), Some("c"), None).as_deref(), Some("tok"));
    assert_eq!(capture_access_token(None, None, Some("inv")).as_deref(), Some("inv"));
    assert_eq!(capture_access_token(Some(" "), Some("c"), None), None);
    assert!(home_redirects_to_signup(Some("X1")));
    assert!(!home_redirects_to_signup(Some("")));
    assert!(!home_redirects_to_signup(None));
}

#[test]
fn host_redirect_and_routes() {
    assert_eq!(
        canonical_redirect("www.doxle.com", "/projects", "?a=1", "#top").as_deref(),
        Some("https://doxle.ai/projects?a=1#top")
    );
    assert_eq!(canonical_redirect("doxle.ai", "/", "", ""), None);
    assert_eq!(profile_name_from_email("sam@doxle.ai"), "sam");
    assert_eq!(profile_name_from_email("a@b@c"), "a");
    assert_eq!(profile_name_from_email("nobody"), "nobody");
    assert_eq!(profile_name_from_email("@x"), "");
    assert_eq!(login_error_message("401"), "Login failed: 401");
    assert_eq!(sign_in_error_message("bad password"), "Sign in failed: bad password");
    assert_eq!(missing_profile_message(), "Please complete your profile setup");
    assert_eq!(protected_route(Some("t")), RouteDecision::Render);
    assert_eq!(protected_route(None), RouteDecision::RedirectToLogin);
    assert_eq!(legal_consent_agree(true), ConsentAction::GoToUpload);
    assert_eq!(legal_consent_agree(false), ConsentAction::ShowDialog);
}

#[test]
fn comment_placement() {
    let mut c: Comment<(i32, i32)> = Comment::new();
    assert!(!c.shows_text());
    c.on_comment_click((3, 4));
    assert_eq!(c.position, Some((3, 4)));
    assert_eq!(c.text, "Comment text");
    assert!(c.is_complete && c.shows_text());
    c.on_comment_click((5, 6));
    assert_eq!(c.position, Some((5, 6)));
    c.reset();
    assert_eq!(c.position, None);
    assert!(!c.is_complete);
    c.set_position((1, 1));
    c.set_text(String::new());
    assert!(!c.shows_text());
}

#[test]
fn dates_and_relative_times() {
    let (m, d, y) = (2, 5, 2024);
    assert_eq!(format_date("2024-03-05", m, d, y), "Mar 5, 2024");
    assert_eq!(format_date("", m, d, y), "\u{2014}");
    assert_eq!(format_date("bad", 0, 0, 0), "Jan 0, 0");
    assert_eq!(format_date("x", 11, 31, 1999), "Dec 31, 1999");
    assert_eq!(format_relative_time("x", 0, m, d, y), "just now");
    assert_eq!(format_relative_time("x", 59, m, d, y), "just now");
    assert_eq!(format_relative_time("x", 60, m, d, y), "1 min ago");
    assert_eq!(format_relative_time("x", 3599, m, d, y), "59 min ago");
    assert_eq!(format_relative_time("x", 3600, m, d, y), "1 hours ago");
    assert_eq!(format_relative_time("x", 86399, m, d, y), "23 hours ago");
    assert_eq!(format_relative_time("x", 86400, m, d, y), "1 days ago");
    assert_eq!(format_relative_time("x", 2591999, m, d, y), "29 days ago");
    assert_eq!(format_relative_time("x", 2592000, m, d, y), "Mar 5, 2024");
    assert_eq!(format_relative_time("", 10, m, d, y), "\u{2014}");
}

#[test]
fn gallery_navigation() {
    let mut g: Gallery<&str> = Gallery::new();
    assert!(g.get_current_image().is_none());
    g.next_image();
    g.prev_image();
    assert_eq!(g.current_index, 0);
    g.begin_load();
    assert!(g.loading);
    g.load_block_images(Ok(vec!["a", "b", "c"]));
    assert!(!g.loading);
    assert_eq!(g.get_current_image(), Some(&"a"));
    g.next_image();
    g.next_image();
    g.next_image();
    assert_eq!(g.get_current_image(), Some(&"c"));
    g.prev_image();
    assert_eq!(g.get_current_image(), Some(&"b"));
    g.next_image();
    g.prev_image();
    assert_eq!(g.current_index, 1);
    g.begin_load();
    g.load_block_images(Err("offline".to_string()));
    assert_eq!(g.error.as_deref(), Some("offline"));
    assert_eq!(g.images.len(), 3);
    g.load_block_images(Ok(vec!["z"]));
    assert_eq!(g.current_index, 0);
}

#[test]
fn letter_cycle_round() {
    let mut k = 0;
    let mut total = 0;
    let mut letters = Vec::new();
    for _ in 0..CYCLE_STEPS {
        let s = letter_cycle_step(k);
        total += s.wait_ms;
        if let Some(i) = s.letter_index {
            letters.push(i);
        }
        k = next_cycle_step(k);
    }
    assert_eq!(k, 0);
    assert_eq!(total, 6200);
    assert_eq!(letters, vec![0, 1, 2, 3, 4, LOADING_PHASE]);
    assert_eq!(letter_cycle_step(10).loading_class, Some(LoadingClass::FadeOut));
    assert_eq!(LoadingClass::FadeOut.class_name(), "fade-out");
    assert_eq!(LoadingClass::Visible.class_name(), "visible");
    assert_eq!(LoadingClass::Hidden.class_name(), "");
}

#[test]
fn labels_form() {
    let palette: Vec<String> = vec!["#f00".to_string(), "#0f0".to_string()];
    let mut f = NewProjectForm::new();
    assert_eq!(f.project_type, "annotation");
    f.label_name = "  wall ".to_string();
    f.handle_add_label(&palette);
    f.label_name = "door".to_string();
    f.handle_add_label(&palette);
    f.label_name = "window".to_string();
    f.handle_add_label(&palette);
    let got: Vec<(String, String)> = f.labels.iter().map(|l: &Label| (l.name.clone(), l.color.clone())).collect();
    assert_eq!(
        got,
        vec![
            ("wall".to_string(), "#f00".to_string()),
            ("door".to_string(), "#0f0".to_string()),
            ("window".to_string(), "#f00".to_string())
        ]
    );
    assert_eq!(f.label_color_index, 1);
    f.label_name = "   ".to_string();
    f.handle_add_label(&palette);
    assert_eq!(f.labels.len(), 3);
    f.handle_remove_label(0);
    assert_eq!(f.labels[0].name, "door");
    f.reset();
    assert!(f.labels.is_empty());
    assert_eq!(f.label_color_index, 0);
}

#[test]
fn navbar_bits() {
    assert_eq!(avatar_initial(Some("alice"), 'U'), "A");
    assert_eq!(avatar_initial(Some("ß"), 'U'), "SS");
    assert_eq!(avatar_initial(None, 'U'), "U");
    assert_eq!(avatar_initial(Some(""), '?'), "?");
    assert_eq!(sidebar_toggle_title(true), "Close Sidebar");
    assert_eq!(sidebar_toggle_title(false), "Open Sidebar");
    assert_eq!(breadcrumbs(NavbarContext::Projects), vec!["Projects"]);
    assert_eq!(breadcrumbs(NavbarContext::Blocks { project_name: "Villa" }), vec!["Projects", "Villa"]);
    assert_eq!(breadcrumbs(NavbarContext::Canvas { block_name: "B1" }), vec!["Projects", "B1"]);
    assert_eq!(tool_button_class(Some(AnnotationTool::Polygon), AnnotationTool::Polygon), "navbar-tool-button active");
    assert_eq!(tool_button_class(Some(AnnotationTool::Polygon), AnnotationTool::BoundingBox), "navbar-tool-button");
    assert_eq!(tool_button_class(None, AnnotationTool::Polygon), "navbar-tool-button");
}

#[test]
fn sharing() {
    assert_eq!(invite_link("XYZ"), "https://doxle.ai/signup?invite=XYZ");
    let invites = vec![
        InviteSummary { status: Some("pending".to_string()), email: Some("a@x".to_string()) },
        InviteSummary { status: Some("accepted".to_string()), email: Some("b@x".to_string()) },
        InviteSummary { status: Some("pending".to_string()), email: None },
        InviteSummary { status: None, email: Some("c@x".to_string()) },
        InviteSummary { status: Some("pending".to_string()), email: Some("d@x".to_string()) },
    ];
    assert_eq!(pending_invite_emails(&invites), vec!["a@x", "d@x"]);
    assert_eq!(check_invite_email(""), Err("Please enter an email address"));
    assert_eq!(check_invite_email("a@b"), Ok(()));
    assert!(invite_button_disabled("", false));
    assert!(invite_button_disabled("a", true));
    assert!(!invite_button_disabled("a", false));
    assert_eq!(invite_button_label(true), "Sending...");
    assert_eq!(invite_button_label(false), "Invite");
    assert_eq!(copy_link_label(true), "Copied!");
    assert_eq!(copy_link_label(false), "Copy Link");
    assert_eq!(copy_link_action(""), CopyLinkAction::RequestInviteCode);
    assert_eq!(copy_link_action("https://x"), CopyLinkAction::CopyLink);
    assert_eq!(send_invite_error_message("e"), "Failed to send email: e");
}

#[test]
fn upload_requests() {
    let r = initiate_upload_request("plan.pdf", "", 10);
    assert_eq!(r.content_type, "application/pdf");
    assert_eq!(r.upload_namespace, "plan");
    assert_eq!(r.file_size, 10);
    assert_eq!(upload_content_type("image/png"), "image/png");
    let c = complete_single_upload_request("img1", "pdf");
    assert_eq!((c.upload_id.as_str(), c.parts.len(), c.extension.as_str()), ("", 0, "pdf"));
    let m = complete_multipart_upload_request(
        "img1",
        "up1",
        "pdf",
        vec![CompletedPart { part_number: 1, etag: "e1".to_string() }],
    );
    assert_eq!(m.upload_id, "up1");
    assert_eq!(m.parts[0].etag, "e1");
    let p = create_public_project("Villa", "a@b.c", vec![file("1"), file("2")]);
    assert_eq!(p.file_ids.len(), 2);
    assert_eq!(p.file_ids[1].image_id, "2");
    assert_eq!(p.project_name, "Villa");
}

#[test]
fn multipart_ranges_cover_the_file() {
    let size = 2 * CHUNK_SIZE + 17;
    assert_eq!(part_range(0, size), (0, CHUNK_SIZE));
    assert_eq!(part_range(1, size), (CHUNK_SIZE, 2 * CHUNK_SIZE));
    assert_eq!(part_range(2, size), (2 * CHUNK_SIZE, size));
    let mut covered = 0;
    let parts = (size + CHUNK_SIZE - 1) / CHUNK_SIZE;
    for i in 0..parts {
        let (s, e) = part_range(i, size);
        assert_eq!(s, covered);
        covered = e;
    }
    assert_eq!(covered, size);
}

#[test]
fn etags_lose_their_quotes() {
    assert_eq!(etag_value("\"abc\""), "abc");
    assert_eq!(etag_value("\"\"abc"), "abc");
    assert_eq!(etag_value("a\"b"), "a\"b");
    assert_eq!(etag_value("\"\"\""), "");
    assert_eq!(etag_value(""), "");
    for s in ["\"x\"", "\"\"y\"", "z"] {
        assert_eq!(etag_value(s), s.trim_matches('"'));
    }
}

#[test]
fn upload_form_checks() {
    assert!(has_email(" a@b "));
    assert!(!has_email("   "));
    assert!(!has_email("ab"));
    assert!(has_name("  abc "));
    assert!(!has_name(" ab "));
    assert!(has_name("é€"));
    assert!(can_submit_plans(1, "Villa", "a@b", false));
    assert!(!can_submit_plans(0, "Villa", "a@b", false));
    assert!(!can_submit_plans(1, "Villa", "a@b", true));
    assert!(can_submit_collect_email("Villa", "a@b"));
    assert!(!can_submit_collect_email("Vi", "a@b"));
    assert_eq!(submit_button_label(true, true), "Creating...");
    assert_eq!(submit_button_label(false, true), "Uploading...");
    assert_eq!(submit_button_label(false, false), "Submit");
    assert_eq!(listed_file_count(2, 5), 2);
    assert_eq!(listed_file_count(0, 5), 5);
    assert!(upload_draft_storage_enabled(Some("localhost")));
    assert!(!upload_draft_storage_enabled(Some("DOXLE.ai")));
    assert!(!upload_draft_storage_enabled(Some("App.Doxle.AI")));
    assert!(!upload_draft_storage_enabled(None));
}

#[test]
fn upload_tally() {
    let mut t = UploadTally::new(3);
    assert_eq!(t.progress_label(), "Uploading 0/3");
    t.record(Ok(file("1")));
    t.record(Err("x".to_string()));
    t.record(Ok(file("3")));
    assert_eq!(t.progress_label(), "Uploading 3/3");
    assert_eq!(t.results.len(), 2);
    assert_eq!(t.result_message(), "1 of 3 uploads failed");
    let mut ok = UploadTally::new(1);
    ok.record(Ok(file("9")));
    assert_eq!(ok.result_message(), "Uploaded 1 plans");
}

#[test]
fn media_kind_defaults_to_image() {
    assert_eq!(default_media_type(), "image");
}

#[test]
fn picking_a_swatch_colours_the_next_label() {
    let palette = vec!["#111".to_string(), "#222".to_string(), "#333".to_string()];
    let mut form = NewProjectForm::new();
    form.select_label_color(2);
    form.label_name = " roof ".to_string();
    form.handle_add_label(&palette);
    assert_eq!(form.labels[0].name, "roof");
    assert_eq!(form.labels[0].color, "#333");
    assert_eq!(form.label_color_index, 0);
}

#[test]
fn refused_project_creation_message() {
    assert_eq!(create_project_error_message("409"), "Failed to create project: 409");
}
