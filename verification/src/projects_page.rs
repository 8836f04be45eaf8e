//! State of the projects page: the list and search, the per-project menu,
//! and the rename dialog.
use vstd::prelude::*;
use vstd::string::*;
use crate::projects::{filter_projects, spec_filter_projects, Project, ProjectView};
use crate::text::{
    concat, contains, contains_seq, lowercase, str_eq, to_lowercase, trim, trim_seq,
};

verus! {

/// What the projects page shows and which of its menus and dialogs are open.
pub struct ProjectsController {
    pub is_admin: bool,
    pub is_dark: bool,
    pub projects: Vec<Project>,
    pub filtered_projects: Vec<Project>,
    pub open_menu_id: Option<String>,
    pub renaming_project: Option<(String, String)>,
    pub rename_input: String,
    pub view_mode: String,
    pub search_active: bool,
    pub search_query: String,
}

/// Outcome of pressing "Save" (or Enter) in the rename dialog.
pub enum RenameSubmit {
    /// The name is empty once trimmed; the dialog stays open with this error.
    Rejected(String),
    /// The name did not change; the dialog closes.
    Unchanged,
    /// The project is to be renamed to this name; the dialog closes.
    Rename(String),
}

impl ProjectsController {
    /// Page state when it opens: list view, no search, no menu, no dialog.
    pub fn use_projects_controller(is_admin: bool, is_dark: bool, projects: Vec<Project>) -> (c:
        Self)
        ensures
            c.is_admin == is_admin,
            c.is_dark == is_dark,
            c.projects.deep_view() == projects.deep_view(),
            c.filtered_projects.deep_view() == projects.deep_view(),
            c.open_menu_id is None,
            c.renaming_project is None,
            c.rename_input@ == Seq::<char>::empty(),
            c.view_mode@ == "list"@,
            !c.search_active,
            c.search_query@ == Seq::<char>::empty(),
    {
        let query = String::new();
        let filtered = filter_projects(&projects, query.as_str());
        ProjectsController {
            is_admin,
            is_dark,
            projects,
            filtered_projects: filtered,
            open_menu_id: None,
            renaming_project: None,
            rename_input: String::new(),
            view_mode: String::from_str("list"),
            search_active: false,
            search_query: query,
        }
    }

    /// Takes in the current project list and search text, and recomputes
    /// what is shown.
    pub fn refresh(&mut self, projects: Vec<Project>, search_query: String)
        ensures
            final(self).projects.deep_view() == projects.deep_view(),
            final(self).search_query@ == search_query@,
            final(self).filtered_projects.deep_view() == spec_filter_projects(
                projects.deep_view(),
                search_query@,
            ),
            final(self).open_menu_id == old(self).open_menu_id,
            final(self).renaming_project == old(self).renaming_project,
            final(self).search_active == old(self).search_active,
    {
        self.filtered_projects = filter_projects(&projects, search_query.as_str());
        self.projects = projects;
        self.search_query = search_query;
    }

    /// Whether the projects are shown as a list.
    pub fn is_list_mode(&self) -> (r: bool)
        ensures
            r == (self.view_mode@ == "list"@),
    {
        str_eq(self.view_mode.as_str(), "list")
    }

    /// Whether an active search found nothing.
    pub fn has_no_search_results(&self) -> (r: bool)
        ensures
            r == (self.filtered_projects@.len() == 0 && self.search_active),
    {
        self.filtered_projects.len() == 0 && self.search_active
    }

    /// Closes the project menu.
    pub fn close_project_menu(&mut self)
        ensures
            final(self).open_menu_id is None,
            final(self).renaming_project == old(self).renaming_project,
            final(self).rename_input == old(self).rename_input,
    {
        self.open_menu_id = None;
    }

    /// The menu button of a project: opens its menu, or closes it when it
    /// was the open one.
    pub fn toggle_project_menu(&mut self, project_id: String)
        ensures
            old(self).open_menu_id.deep_view() == Some(project_id@) ==> final(self).open_menu_id
                is None,
            old(self).open_menu_id.deep_view() != Some(project_id@) ==> final(self).open_menu_id.deep_view() == Some(project_id@),
            final(self).renaming_project == old(self).renaming_project,
    {
        let same = match &self.open_menu_id {
            Some(open) => str_eq(open.as_str(), project_id.as_str()),
            None => false,
        };
        if same {
            self.open_menu_id = None;
        } else {
            self.open_menu_id = Some(project_id);
        }
    }

    /// Right-click on a project opens its menu.
    pub fn open_context_menu(&mut self, project_id: String)
        ensures
            final(self).open_menu_id.deep_view() == Some(project_id@),
    {
        self.open_menu_id = Some(project_id);
    }

    /// A click on a project card: closes an open menu instead of opening
    /// the project. Returns whether to open the project.
    pub fn on_project_click(&mut self) -> (open_project: bool)
        ensures
            open_project == (old(self).open_menu_id is None),
            final(self).open_menu_id is None,
    {
        if self.open_menu_id.is_some() {
            self.open_menu_id = None;
            false
        } else {
            true
        }
    }

    /// "Rename" in a project menu: opens the dialog filled with the current
    /// name and closes the menu.
    pub fn begin_project_rename(&mut self, project_id: String, current_name: String)
        ensures
            final(self).renaming_project matches Some(r) && r.0@ == project_id@ && r.1@
                == current_name@,
            final(self).rename_input@ == current_name@,
            final(self).open_menu_id is None,
    {
        let input = current_name.clone();
        self.renaming_project = Some((project_id, current_name));
        self.rename_input = input;
        self.open_menu_id = None;
    }

    /// Closes the rename dialog.
    pub fn cancel_project_rename(&mut self)
        ensures
            final(self).renaming_project is None,
            final(self).open_menu_id == old(self).open_menu_id,
            final(self).rename_input == old(self).rename_input,
    {
        self.renaming_project = None;
    }

    /// "Save" in the rename dialog. An empty name is refused with a message
    /// and the dialog stays; otherwise the dialog closes, and the project is
    /// renamed when the trimmed name differs from the current one.
    pub fn submit_project_rename(&mut self, current_name: &str) -> (outcome: RenameSubmit)
        ensures
            trim_seq(old(self).rename_input@).len() == 0 ==> (outcome matches RenameSubmit::Rejected(
                m,
            ) && m@ == "Project name is required"@ && final(self).renaming_project == old(self).renaming_project),
            trim_seq(old(self).rename_input@).len() > 0 && trim_seq(old(self).rename_input@)
                == current_name@ ==> (outcome is Unchanged && final(self).renaming_project is None),
            trim_seq(old(self).rename_input@).len() > 0 && trim_seq(old(self).rename_input@)
                != current_name@ ==> (outcome matches RenameSubmit::Rename(n) && n@ == trim_seq(
                old(self).rename_input@,
            ) && final(self).renaming_project is None),
            final(self).open_menu_id == old(self).open_menu_id,
    {
        let next_name = trim(self.rename_input.as_str());
        if next_name.as_str().unicode_len() == 0 {
            return RenameSubmit::Rejected(String::from_str("Project name is required"));
        }
        if str_eq(next_name.as_str(), current_name) {
            self.cancel_project_rename();
            return RenameSubmit::Unchanged;
        }
        self.cancel_project_rename();
        RenameSubmit::Rename(next_name)
    }

    /// "Delete" in a project menu closes the menu; the project leaves the
    /// list once the server confirms.
    pub fn delete_project(&mut self)
        ensures
            final(self).open_menu_id is None,
            final(self).renaming_project == old(self).renaming_project,
    {
        self.open_menu_id = None;
    }

    /// Opens the search field.
    pub fn open_search(&mut self)
        ensures
            final(self).search_active,
            final(self).search_query == old(self).search_query,
    {
        self.search_active = true;
    }

    /// Escape or the close button in the search field: closes it and clears the text.
    pub fn close_search(&mut self)
        ensures
            !final(self).search_active,
            final(self).search_query@ == Seq::<char>::empty(),
    {
        self.search_active = false;
        self.search_query = String::new();
    }
}

/// Message after a rename that the server accepted.
pub fn rename_success_message() -> (m: &'static str)
    ensures
        m@ == "Project renamed"@,
{
    "Project renamed"
}

/// Message after a rename that the server refused.
pub fn rename_failure_message(error: &str) -> (m: String)
    ensures
        m@ == "Failed to rename project: "@ + error@,
{
    concat("Failed to rename project: ", error)
}

/// Message after a deletion that the server refused.
pub fn delete_failure_message(error: &str) -> (m: String)
    ensures
        m@ == "Failed to delete project: "@ + error@,
{
    concat("Failed to delete project: ", error)
}

/// Path of a project's blocks page.
pub fn project_blocks_path(project_id: &str) -> (path: String)
    ensures
        path@ == "/projects/"@ + project_id@ + "/blocks"@,
{
    let mut p = String::from_str("/projects/");
    p.append(project_id);
    p.append("/blocks");
    p
}

/// Address of a project's blocks page: on this site's origin when it is
/// known, otherwise just the path. Used to open it in a new tab and to copy
/// its link.
pub fn open_project_in_new_tab(origin: Option<&str>, project_id: &str) -> (url: String)
    ensures
        origin matches Some(o) ==> url@ == o@ + "/projects/"@ + project_id@ + "/blocks"@,
        origin is None ==> url@ == "/projects/"@ + project_id@ + "/blocks"@,
{
    let path = project_blocks_path(project_id);
    match origin {
        Some(o) => concat(o, path.as_str()),
        None => path,
    }
}

/// `s` made safe inside a double-quoted JavaScript string: each backslash
/// doubled and each double quote preceded by a backslash.
pub open spec fn escape_js_seq(s: Seq<char>) -> Seq<char>
    decreases s.len(),
{
    if s.len() == 0 {
        Seq::empty()
    } else {
        let rest = escape_js_seq(s.drop_last());
        if s.last() == '\\' {
            rest + seq!['\\', '\\']
        } else if s.last() == '"' {
            rest + seq!['\\', '"']
        } else {
            rest.push(s.last())
        }
    }
}

/// `s` made safe inside a double-quoted JavaScript string.
pub fn escape_js_string(s: &str) -> (r: String)
    ensures
        r@ == escape_js_seq(s@),
{
    let n = s.unicode_len();
    let mut r = String::new();
    let mut i: usize = 0;
    while i < n
        invariant
            n == s@.len(),
            i <= n,
            r@ == escape_js_seq(s@.subrange(0, i as int)),
        decreases n - i,
    {
        let ghost before = s@.subrange(0, i as int);
        assert(s@.subrange(0, i + 1).drop_last() =~= before);
        let c = s.get_char(i);
        if c == '\\' {
            proof {
                reveal_strlit("\\\\");
            }
            r.append("\\\\");
        } else if c == '"' {
            proof {
                reveal_strlit("\\\"");
            }
            r.append("\\\"");
        } else {
            let one = s.substring_char(i, i + 1);
            assert(one@ =~= seq![c]);
            r.append(one);
        }
        i = i + 1;
        assert(r@ =~= escape_js_seq(s@.subrange(0, i as int)));
    }
    assert(s@.subrange(0, n as int) =~= s@);
    r
}

/// Script that copies a project's link to the clipboard.
pub fn copy_project_link(origin: Option<&str>, project_id: &str) -> (script: String)
    ensures
        script@ == "navigator.clipboard && navigator.clipboard.writeText(\""@ + escape_js_seq(
            (match origin {
                Some(o) => o@ + "/projects/"@ + project_id@ + "/blocks"@,
                None => "/projects/"@ + project_id@ + "/blocks"@,
            }),
        ) + "\");"@,
{
    let url = open_project_in_new_tab(origin, project_id);
    let escaped = escape_js_string(url.as_str());
    let mut s = String::from_str("navigator.clipboard && navigator.clipboard.writeText(\"");
    s.append(escaped.as_str());
    s.append("\");");
    s
}

/// Which entries of a project menu are shown for the text typed in its
/// filter box, and where dividers go.
pub struct ProjectMenuItems {
    pub show_rename: bool,
    pub show_open_new_tab: bool,
    pub show_copy_link: bool,
    pub show_delete: bool,
    pub show_first_divider: bool,
    pub show_second_divider: bool,
    pub show_any_items: bool,
}

/// Whether a menu entry is shown for a filter: always for an empty filter,
/// otherwise when its label contains the filter, ignoring case and the
/// filter's surrounding white space.
pub open spec fn menu_label_shown(label: Seq<char>, filter: Seq<char>) -> bool {
    let q = lowercase(trim_seq(filter));
    q.len() == 0 || contains_seq(lowercase(label), q)
}

fn label_shown(label: &str, query: &String) -> (shown: bool)
    ensures
        shown == (query@.len() == 0 || contains_seq(lowercase(label@), query@)),
{
    if query.as_str().unicode_len() == 0 {
        true
    } else {
        let l = to_lowercase(label);
        contains(l.as_str(), query.as_str())
    }
}

/// Entries of a project menu shown for the text in its filter box.
pub fn project_menu_items(filter: &str) -> (items: ProjectMenuItems)
    ensures
        items.show_rename == menu_label_shown("Rename"@, filter@),
        items.show_open_new_tab == menu_label_shown("Open in new tab"@, filter@),
        items.show_copy_link == menu_label_shown("Copy link"@, filter@),
        items.show_delete == menu_label_shown("Delete"@, filter@),
        items.show_first_divider == (items.show_rename && (items.show_open_new_tab
            || items.show_copy_link || items.show_delete)),
        items.show_second_divider == ((items.show_open_new_tab || items.show_copy_link)
            && items.show_delete),
        items.show_any_items == (items.show_rename || items.show_open_new_tab
            || items.show_copy_link || items.show_delete),
{
    let trimmed = trim(filter);
    let query = to_lowercase(trimmed.as_str());
    let show_rename = label_shown("Rename", &query);
    let show_open_new_tab = label_shown("Open in new tab", &query);
    let show_copy_link = label_shown("Copy link", &query);
    let show_delete = label_shown("Delete", &query);
    let first_group = show_rename;
    let second_group = show_open_new_tab || show_copy_link;
    ProjectMenuItems {
        show_rename,
        show_open_new_tab,
        show_copy_link,
        show_delete,
        show_first_divider: first_group && (second_group || show_delete),
        show_second_divider: second_group && show_delete,
        show_any_items: first_group || second_group || show_delete,
    }
}

/// An empty filter shows every entry of the menu.
pub proof fn lemma_empty_filter_shows_all(filter: Seq<char>, label: Seq<char>)
    requires
        lowercase(trim_seq(filter)).len() == 0,
    ensures
        menu_label_shown(label, filter),
{
}

/// Heading of the projects grid: the user's projects when the user is known.
pub fn projects_heading(user_name: Option<&str>) -> (heading: String)
    ensures
        user_name matches Some(n) ==> heading@ == n@ + "'s Projects"@,
        user_name is None ==> heading@ == "My Projects"@,
{
    match user_name {
        Some(n) => concat(n, "'s Projects"),
        None => String::from_str("My Projects"),
    }
}

} // verus!
