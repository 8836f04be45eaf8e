//! The list of projects kept by the client: search, menus, renaming with
//! optimistic update and rollback, creation and deletion.
use vstd::prelude::*;
use vstd::string::*;
use crate::text::{
    contains, contains_seq, lowercase, str_eq, to_lowercase, trim, trim_seq,
};

verus! {

/// A project as the server describes it.
pub struct Project {
    pub project_id: String,
    pub project_name: String,
    pub project_company: Option<String>,
    pub project_status: String,
    pub project_address: Option<String>,
    pub project_email: Option<String>,
    pub project_owner: String,
    pub project_members: Vec<String>,
    pub project_start_date: Option<String>,
    pub project_end_date: Option<String>,
    pub project_description: Option<String>,
    pub project_budget: Option<String>,
    pub project_client_name: Option<String>,
    pub project_created_at: String,
    pub project_updated_at: String,
}

/// A project as plain values: strings as character sequences.
pub struct ProjectView {
    pub project_id: Seq<char>,
    pub project_name: Seq<char>,
    pub project_company: Option<Seq<char>>,
    pub project_status: Seq<char>,
    pub project_address: Option<Seq<char>>,
    pub project_email: Option<Seq<char>>,
    pub project_owner: Seq<char>,
    pub project_members: Seq<Seq<char>>,
    pub project_start_date: Option<Seq<char>>,
    pub project_end_date: Option<Seq<char>>,
    pub project_description: Option<Seq<char>>,
    pub project_budget: Option<Seq<char>>,
    pub project_client_name: Option<Seq<char>>,
    pub project_created_at: Seq<char>,
    pub project_updated_at: Seq<char>,
}

impl View for Project {
    type V = ProjectView;

    open spec fn view(&self) -> ProjectView {
        ProjectView {
            project_id: self.project_id@,
            project_name: self.project_name@,
            project_company: self.project_company.deep_view(),
            project_status: self.project_status@,
            project_address: self.project_address.deep_view(),
            project_email: self.project_email.deep_view(),
            project_owner: self.project_owner@,
            project_members: self.project_members.deep_view(),
            project_start_date: self.project_start_date.deep_view(),
            project_end_date: self.project_end_date.deep_view(),
            project_description: self.project_description.deep_view(),
            project_budget: self.project_budget.deep_view(),
            project_client_name: self.project_client_name.deep_view(),
            project_created_at: self.project_created_at@,
            project_updated_at: self.project_updated_at@,
        }
    }
}

impl DeepView for Project {
    type V = ProjectView;

    open spec fn deep_view(&self) -> ProjectView {
        self@
    }
}

/// Body of a request that creates a project.
pub struct CreateProjectRequest {
    pub project_name: String,
    pub project_company: Option<String>,
    pub project_description: Option<String>,
}

/// Body of a request that renames a project.
pub struct UpdateProjectRequest {
    pub project_name: Option<String>,
}

fn clone_opt_string(o: &Option<String>) -> (r: Option<String>)
    ensures
        r == *o,
{
    match o {
        Some(s) => Some(s.clone()),
        None => None,
    }
}

fn clone_strings(v: &Vec<String>) -> (r: Vec<String>)
    ensures
        r@ == v@,
        r.deep_view() == v.deep_view(),
{
    let mut r: Vec<String> = Vec::new();
    let mut i: usize = 0;
    while i < v.len()
        invariant
            i <= v.len(),
            r@ == v@.subrange(0, i as int),
        decreases v.len() - i,
    {
        r.push(v[i].clone());
        i = i + 1;
        assert(r@ =~= v@.subrange(0, i as int));
    }
    assert(v@.subrange(0, v.len() as int) =~= v@);
    assert(r.deep_view() =~= v.deep_view());
    r
}

impl Clone for Project {
    fn clone(&self) -> (r: Self)
        ensures
            r@ == self@,
    {
        Project {
            project_id: self.project_id.clone(),
            project_name: self.project_name.clone(),
            project_company: clone_opt_string(&self.project_company),
            project_status: self.project_status.clone(),
            project_address: clone_opt_string(&self.project_address),
            project_email: clone_opt_string(&self.project_email),
            project_owner: self.project_owner.clone(),
            project_members: clone_strings(&self.project_members),
            project_start_date: clone_opt_string(&self.project_start_date),
            project_end_date: clone_opt_string(&self.project_end_date),
            project_description: clone_opt_string(&self.project_description),
            project_budget: clone_opt_string(&self.project_budget),
            project_client_name: clone_opt_string(&self.project_client_name),
            project_created_at: self.project_created_at.clone(),
            project_updated_at: self.project_updated_at.clone(),
        }
    }
}

impl CreateProjectRequest {
    /// Request for a project with this name, company and description.
    pub fn new(name: String, company: Option<String>, description: Option<String>) -> (r: Self)
        ensures
            r.project_name == name,
            r.project_company == company,
            r.project_description == description,
    {
        CreateProjectRequest {
            project_name: name,
            project_company: company,
            project_description: description,
        }
    }
}

impl UpdateProjectRequest {
    /// Request that renames a project to `name`.
    pub fn rename(name: String) -> (r: Self)
        ensures
            r.project_name == Some(name),
    {
        UpdateProjectRequest { project_name: Some(name) }
    }
}

/// Whether a project's name matches a search query, ignoring case.
pub open spec fn name_matches(p: ProjectView, query: Seq<char>) -> bool {
    contains_seq(lowercase(p.project_name), lowercase(query))
}

/// The projects shown for a search query: all of them for an empty query,
/// otherwise those whose name contains the query, ignoring case, in order.
pub open spec fn spec_filter_projects(projects: Seq<ProjectView>, query: Seq<char>) -> Seq<
    ProjectView,
> {
    if query.len() == 0 {
        projects
    } else {
        projects.filter(|p: ProjectView| name_matches(p, query))
    }
}

pub(crate) proof fn lemma_filter_step<A>(s: Seq<A>, i: int, pred: spec_fn(A) -> bool)
    requires
        0 <= i < s.len(),
    ensures
        s.subrange(0, i + 1).filter(pred) == if pred(s[i]) {
            s.subrange(0, i).filter(pred).push(s[i])
        } else {
            s.subrange(0, i).filter(pred)
        },
{
    reveal_with_fuel(Seq::<_>::filter, 1);
    assert(s.subrange(0, i + 1).drop_last() =~= s.subrange(0, i));
}

/// A search shows exactly the projects whose name contains the query
/// anywhere, ignoring case: every project shown has such a name and comes
/// from the list, and every project of the list with such a name is shown.
/// An empty query shows the list as it is.
pub proof fn lemma_search_finds_query_anywhere(projects: Seq<ProjectView>, query: Seq<char>)
    ensures
        query.len() == 0 ==> spec_filter_projects(projects, query) == projects,
        query.len() > 0 ==> forall|i: int|
            0 <= i < spec_filter_projects(projects, query).len() ==> contains_seq(
                lowercase(#[trigger] spec_filter_projects(projects, query)[i].project_name),
                lowercase(query),
            ) && projects.contains(spec_filter_projects(projects, query)[i]),
        query.len() > 0 ==> forall|i: int|
            0 <= i < projects.len() && contains_seq(
                lowercase(#[trigger] projects[i].project_name),
                lowercase(query),
            ) ==> spec_filter_projects(projects, query).contains(projects[i]),
{
    broadcast use vstd::seq_lib::group_filter_ensures;

    if query.len() > 0 {
        let pred = |p: ProjectView| name_matches(p, query);
        let out = projects.filter(pred);
        assert forall|i: int| 0 <= i < out.len() implies contains_seq(
            lowercase(#[trigger] out[i].project_name),
            lowercase(query),
        ) && projects.contains(out[i]) by {
            assert(pred(out[i]));
            lemma_filter_member(projects, pred, i);
        }
        assert forall|i: int|
            0 <= i < projects.len() && contains_seq(
                lowercase(#[trigger] projects[i].project_name),
                lowercase(query),
            ) implies out.contains(projects[i]) by {
            assert(pred(projects[i]));
        }
    }
}

proof fn lemma_filter_member<A>(s: Seq<A>, pred: spec_fn(A) -> bool, i: int)
    requires
        0 <= i < s.filter(pred).len(),
    ensures
        s.contains(s.filter(pred)[i]),
    decreases s.len(),
{
    reveal_with_fuel(Seq::<_>::filter, 1);
    if s.len() > 0 {
        let d = s.drop_last();
        let fd = d.filter(pred);
        if pred(s.last()) && i == fd.len() {
            assert(s[s.len() - 1] == s.filter(pred)[i]);
        } else {
            assert(s.filter(pred)[i] == fd[i]);
            lemma_filter_member(d, pred, i);
            let k = choose|k: int| 0 <= k < d.len() && d[k] == fd[i];
            assert(s[k] == d[k]);
        }
    }
}

/// The projects shown for a search query (see `spec_filter_projects`).
pub fn filter_projects(projects: &Vec<Project>, search_query: &str) -> (r: Vec<Project>)
    ensures
        r.deep_view() == spec_filter_projects(projects.deep_view(), search_query@),
        search_query@.len() == 0 ==> r.deep_view() == projects.deep_view(),
        search_query@.len() > 0 ==> forall|i: int|
            0 <= i < r.deep_view().len() ==> contains_seq(
                lowercase(#[trigger] r.deep_view()[i].project_name),
                lowercase(search_query@),
            ) && projects.deep_view().contains(r.deep_view()[i]),
        search_query@.len() > 0 ==> forall|i: int|
            0 <= i < projects.deep_view().len() && contains_seq(
                lowercase(#[trigger] projects.deep_view()[i].project_name),
                lowercase(search_query@),
            ) ==> r.deep_view().contains(projects.deep_view()[i]),
{
    proof {
        lemma_search_finds_query_anywhere(projects.deep_view(), search_query@);
    }
    let ghost all = projects.deep_view();
    let mut r: Vec<Project> = Vec::new();
    if search_query.unicode_len() == 0 {
        let mut i: usize = 0;
        while i < projects.len()
            invariant
                all == projects.deep_view(),
                i <= projects.len(),
                r.deep_view() == all.subrange(0, i as int),
            decreases projects.len() - i,
        {
            let c = projects[i].clone();
            let ghost prev = r.deep_view();
            r.push(c);
            assert(r.deep_view() =~= prev.push(all[i as int]));
            i = i + 1;
            assert(r.deep_view() =~= all.subrange(0, i as int));
        }
        assert(all.subrange(0, projects.len() as int) =~= all);
        return r;
    }
    let ghost pred = |p: ProjectView| name_matches(p, search_query@);
    let query = to_lowercase(search_query);
    let mut i: usize = 0;
    while i < projects.len()
        invariant
            all == projects.deep_view(),
            pred == (|p: ProjectView| name_matches(p, search_query@)),
            query@ == lowercase(search_query@),
            i <= projects.len(),
            r.deep_view() == all.subrange(0, i as int).filter(pred),
        decreases projects.len() - i,
    {
        proof {
            lemma_filter_step(all, i as int, pred);
        }
        let name = to_lowercase(projects[i].project_name.as_str());
        if contains(name.as_str(), query.as_str()) {
            let c = projects[i].clone();
            r.push(c);
            assert(r.deep_view() =~= all.subrange(0, i as int).filter(pred).push(all[i as int]));
        }
        i = i + 1;
    }
    assert(all.subrange(0, projects.len() as int) =~= all);
    r
}

/// Name of the first project with this id.
pub open spec fn spec_first_name(projects: Seq<ProjectView>, id: Seq<char>) -> Option<Seq<char>>
    decreases projects.len(),
{
    if projects.len() == 0 {
        None
    } else if projects[0].project_id == id {
        Some(projects[0].project_name)
    } else {
        spec_first_name(projects.drop_first(), id)
    }
}

/// `p` with its name set to `name`.
pub open spec fn with_name(p: ProjectView, name: Seq<char>) -> ProjectView {
    ProjectView { project_name: name, ..p }
}

/// Every project with id `id` renamed to `name`, the others unchanged.
pub open spec fn spec_rename_all(projects: Seq<ProjectView>, id: Seq<char>, name: Seq<char>) -> Seq<
    ProjectView,
> {
    projects.map_values(
        |p: ProjectView|
            if p.project_id == id {
                with_name(p, name)
            } else {
                p
            },
    )
}

/// Every project with id `id` replaced by `updated`, the others unchanged.
pub open spec fn spec_replace_all(
    projects: Seq<ProjectView>,
    id: Seq<char>,
    updated: ProjectView,
) -> Seq<ProjectView> {
    projects.map_values(|p: ProjectView| if p.project_id == id { updated } else { p })
}

/// The projects whose id is not `id`, in order.
pub open spec fn spec_remove_all(projects: Seq<ProjectView>, id: Seq<char>) -> Seq<ProjectView> {
    projects.filter(|p: ProjectView| p.project_id != id)
}

/// The project list and whether it is being loaded.
pub struct ProjectStore {
    pub projects: Vec<Project>,
    pub loading: bool,
}

impl ProjectStore {
    /// An empty list that is not loading.
    pub fn new() -> (s: Self)
        ensures
            s.projects@.len() == 0,
            !s.loading,
    {
        ProjectStore { projects: Vec::new(), loading: false }
    }

    /// Marks the list as loading, before the request for it is sent.
    pub fn begin_load(&mut self)
        ensures
            final(self).loading,
            final(self).projects.deep_view() == old(self).projects.deep_view(),
    {
        self.loading = true;
    }

    /// Takes in the answer to the request: the list it brings, or, on an
    /// error, the list as it was. Loading is over either way.
    pub fn state_load_projects(&mut self, answer: Result<Vec<Project>, String>)
        ensures
            !final(self).loading,
            answer matches Ok(list) ==> final(self).projects.deep_view() == list.deep_view(),
            answer is Err ==> final(self).projects.deep_view() == old(self).projects.deep_view(),
    {
        match answer {
            Ok(list) => {
                self.projects = list;
            },
            Err(_) => {},
        }
        self.loading = false;
    }

    /// Adds a project that the server has just created.
    pub fn state_create_project(&mut self, project: Project)
        ensures
            final(self).projects.deep_view() == old(self).projects.deep_view().push(project@),
            final(self).loading == old(self).loading,
    {
        self.projects.push(project);
        assert(self.projects.deep_view() =~= old(self).projects.deep_view().push(project@));
    }

    /// Optimistic part of a rename: every project with this id takes the
    /// new name at once. Returns the name of the first such project before,
    /// to restore if the server refuses.
    pub fn state_rename_project(&mut self, project_id: &str, new_name: &str) -> (old_name: Option<
        String,
    >)
        ensures
            old_name.deep_view() == spec_first_name(old(self).projects.deep_view(), project_id@),
            final(self).projects.deep_view() == spec_rename_all(
                old(self).projects.deep_view(),
                project_id@,
                new_name@,
            ),
            final(self).loading == old(self).loading,
    {
        let old_name = self.first_name_of(project_id);
        self.set_name_of(project_id, new_name);
        old_name
    }

    fn first_name_of(&self, project_id: &str) -> (r: Option<String>)
        ensures
            r.deep_view() == spec_first_name(self.projects.deep_view(), project_id@),
    {
        let ghost all = self.projects.deep_view();
        let mut i: usize = 0;
        assert(all.subrange(0, all.len() as int) =~= all);
        while i < self.projects.len()
            invariant
                all == self.projects.deep_view(),
                i <= all.len(),
                spec_first_name(all, project_id@) == spec_first_name(
                    all.subrange(i as int, all.len() as int),
                    project_id@,
                ),
            decreases all.len() - i,
        {
            let ghost tail = all.subrange(i as int, all.len() as int);
            assert(tail.drop_first() =~= all.subrange(i + 1, all.len() as int));
            assert(tail[0] == all[i as int]);
            if str_eq(self.projects[i].project_id.as_str(), project_id) {
                return Some(self.projects[i].project_name.clone());
            }
            i = i + 1;
        }
        None
    }

    fn set_name_of(&mut self, project_id: &str, name: &str)
        ensures
            final(self).projects.deep_view() == spec_rename_all(
                old(self).projects.deep_view(),
                project_id@,
                name@,
            ),
            final(self).loading == old(self).loading,
    {
        let ghost start = self.projects.deep_view();
        let mut i: usize = 0;
        while i < self.projects.len()
            invariant
                i <= self.projects@.len(),
                self.projects@.len() == start.len(),
                self.loading == old(self).loading,
                start == old(self).projects.deep_view(),
                forall|k: int|
                    i <= k < start.len() ==> (#[trigger] self.projects@[k])@ == start[k],
                forall|k: int|
                    0 <= k < i ==> (#[trigger] self.projects@[k])@ == (if start[k].project_id
                        == project_id@ {
                        with_name(start[k], name@)
                    } else {
                        start[k]
                    }),
            decreases start.len() - i,
        {
            if str_eq(self.projects[i].project_id.as_str(), project_id) {
                let mut p = self.projects[i].clone();
                p.project_name = String::from_str(name);
                self.projects.set(i, p);
            }
            i = i + 1;
        }
        assert(self.projects.deep_view() =~= spec_rename_all(start, project_id@, name@));
    }

    /// The server accepted a rename: every project with this id becomes the
    /// project it sent back.
    pub fn confirm_rename(&mut self, project_id: &str, updated: &Project)
        ensures
            final(self).projects.deep_view() == spec_replace_all(
                old(self).projects.deep_view(),
                project_id@,
                updated@,
            ),
            final(self).loading == old(self).loading,
    {
        let ghost start = self.projects.deep_view();
        let mut i: usize = 0;
        while i < self.projects.len()
            invariant
                i <= self.projects@.len(),
                self.projects@.len() == start.len(),
                self.loading == old(self).loading,
                start == old(self).projects.deep_view(),
                forall|k: int|
                    i <= k < start.len() ==> (#[trigger] self.projects@[k])@ == start[k],
                forall|k: int|
                    0 <= k < i ==> (#[trigger] self.projects@[k])@ == (if start[k].project_id
                        == project_id@ {
                        updated@
                    } else {
                        start[k]
                    }),
            decreases start.len() - i,
        {
            if str_eq(self.projects[i].project_id.as_str(), project_id) {
                self.projects.set(i, updated.clone());
            }
            i = i + 1;
        }
        assert(self.projects.deep_view() =~= spec_replace_all(start, project_id@, updated@));
    }

    /// The server refused a rename: the projects with this id take back
    /// the name saved before the optimistic update, if there was one.
    pub fn rollback_rename(&mut self, project_id: &str, old_name: Option<String>)
        ensures
            old_name is None ==> final(self).projects.deep_view() == old(self).projects.deep_view(),
            old_name matches Some(n) ==> final(self).projects.deep_view() == spec_rename_all(
                old(self).projects.deep_view(),
                project_id@,
                n@,
            ),
            final(self).loading == old(self).loading,
    {
        if let Some(n) = old_name {
            self.set_name_of(project_id, n.as_str());
        }
    }

    /// The server deleted a project: it leaves the list, the others keep their order.
    pub fn delete_project(&mut self, project_id: &str)
        ensures
            final(self).projects.deep_view() == spec_remove_all(
                old(self).projects.deep_view(),
                project_id@,
            ),
            final(self).loading == old(self).loading,
    {
        let ghost start = self.projects.deep_view();
        let ghost pred = |p: ProjectView| p.project_id != project_id@;
        let mut kept: Vec<Project> = Vec::new();
        let mut i: usize = 0;
        while i < self.projects.len()
            invariant
                i <= self.projects@.len(),
                start == self.projects.deep_view(),
                start == old(self).projects.deep_view(),
                self.loading == old(self).loading,
                pred == (|p: ProjectView| p.project_id != project_id@),
                kept.deep_view() == start.subrange(0, i as int).filter(pred),
            decreases start.len() - i,
        {
            proof {
                lemma_filter_step(start, i as int, pred);
            }
            if !str_eq(self.projects[i].project_id.as_str(), project_id) {
                let c = self.projects[i].clone();
                kept.push(c);
                assert(kept.deep_view() =~= start.subrange(0, i as int).filter(pred).push(
                    start[i as int],
                ));
            }
            i = i + 1;
        }
        assert(start.subrange(0, start.len() as int) =~= start);
        self.projects = kept;
    }
}

/// A failed rename leaves the list as it was, when the projects with that id
/// all had the same name beforehand (in particular when ids are unique).
pub proof fn lemma_rollback_restores(before: Seq<ProjectView>, id: Seq<char>, new_name: Seq<char>)
    requires
        spec_first_name(before, id) is Some,
        forall|i: int|
            0 <= i < before.len() && before[i].project_id == id ==> (#[trigger] before[i]).project_name
                == spec_first_name(before, id)->0,
    ensures
        spec_rename_all(spec_rename_all(before, id, new_name), id, spec_first_name(before, id)->0)
            == before,
{
    let restored = spec_rename_all(
        spec_rename_all(before, id, new_name),
        id,
        spec_first_name(before, id)->0,
    );
    assert(restored =~= before);
}

/// A deleted project is gone, and every other project is kept.
pub proof fn lemma_delete_removes_only_that_project(projects: Seq<ProjectView>, id: Seq<char>)
    ensures
        forall|i: int|
            0 <= i < spec_remove_all(projects, id).len() ==> (#[trigger] spec_remove_all(
                projects,
                id,
            )[i]).project_id != id,
        forall|i: int|
            0 <= i < projects.len() && projects[i].project_id != id ==> #[trigger] spec_remove_all(
                projects,
                id,
            ).contains(projects[i]),
{
    let pred = |p: ProjectView| p.project_id != id;
    assert forall|i: int|
        0 <= i < spec_remove_all(projects, id).len() implies (#[trigger] spec_remove_all(
        projects,
        id,
    )[i]).project_id != id by {
        projects.lemma_filter_pred(pred, i);
    }
    assert forall|i: int|
        0 <= i < projects.len() && projects[i].project_id != id implies #[trigger] spec_remove_all(
        projects,
        id,
    ).contains(projects[i]) by {
        projects.lemma_filter_contains(pred, i);
    }
}

/// Validation of a new project name on the create page: it must keep at
/// least one character once trimmed.
pub fn create_project_name(input: &str) -> (r: Option<String>)
    ensures
        trim_seq(input@).len() == 0 ==> r is None,
        trim_seq(input@).len() > 0 ==> (r matches Some(n) && n@ == trim_seq(input@)),
{
    let t = trim(input);
    if t.as_str().unicode_len() == 0 {
        None
    } else {
        Some(t)
    }
}

} // verus!
