//! The labels of a project being created: added one by one, each taking
//! the next colour of the palette.
use vstd::prelude::*;
use vstd::string::*;
use crate::text::{concat, trim, trim_seq};

verus! {

/// Message shown when the server refuses to create the project.
pub fn create_project_error_message(error: &str) -> (m: String)
    ensures
        m@ == "Failed to create project: "@ + error@,
{
    concat("Failed to create project: ", error)
}

/// A label of an annotation project.
pub struct Label {
    pub name: String,
    pub color: String,
}

/// Request that creates an annotation project: its name, type and labels.
pub struct CreateLabelledProjectRequest {
    pub name: String,
    pub project_type: String,
    pub labels: Vec<Label>,
}

/// Whether the new-project form may be submitted: it needs at least one
/// label, and no creation may be under way.
pub fn can_create_project(labels_len: usize, loading: bool) -> (allowed: bool)
    ensures
        allowed == (labels_len > 0 && !loading),
{
    labels_len > 0 && !loading
}

/// Text of the form's submit button.
pub fn create_button_label(loading: bool, labels_len: usize) -> (label: &'static str)
    ensures
        loading ==> label@ == "Creating..."@,
        !loading && labels_len == 0 ==> label@ == "Add at least 1 label"@,
        !loading && labels_len > 0 ==> label@ == "Create Project"@,
{
    if loading {
        "Creating..."
    } else if labels_len == 0 {
        "Add at least 1 label"
    } else {
        "Create Project"
    }
}

/// Whether the form warns that a label is still missing.
pub fn shows_label_warning(labels_len: usize) -> (shown: bool)
    ensures
        shown == (labels_len == 0),
{
    labels_len == 0
}

fn copy_labels(v: &Vec<Label>) -> (r: Vec<Label>)
    ensures
        r@ == v@,
{
    let mut r: Vec<Label> = Vec::new();
    let mut i: usize = 0;
    while i < v.len()
        invariant
            i <= v.len(),
            r@ == v@.subrange(0, i as int),
        decreases v.len() - i,
    {
        let l = &v[i];
        r.push(Label { name: l.name.clone(), color: l.color.clone() });
        i = i + 1;
        assert(r@ =~= v@.subrange(0, i as int));
    }
    assert(v@.subrange(0, v.len() as int) =~= v@);
    r
}

/// The new-project form: name, type, labels, and the label being typed.
pub struct NewProjectForm {
    pub project_name: String,
    pub project_type: String,
    pub labels: Vec<Label>,
    pub label_name: String,
    pub label_color_index: usize,
}

impl NewProjectForm {
    /// The colour index points into a palette of `palette_len` colours.
    pub open spec fn wf(&self, palette_len: nat) -> bool {
        self.label_color_index < palette_len
    }

    /// An empty form for an annotation project.
    pub fn new() -> (f: Self)
        ensures
            f.project_name@ == Seq::<char>::empty(),
            f.project_type@ == "annotation"@,
            f.labels@.len() == 0,
            f.label_name@ == Seq::<char>::empty(),
            f.label_color_index == 0,
    {
        NewProjectForm {
            project_name: String::new(),
            project_type: String::from_str("annotation"),
            labels: Vec::new(),
            label_name: String::new(),
            label_color_index: 0,
        }
    }

    /// "Add label": a name that is not blank becomes a label, trimmed, in
    /// the current colour; the field empties and the palette moves on,
    /// wrapping around. A blank name changes nothing.
    pub fn handle_add_label(&mut self, palette: &Vec<String>)
        requires
            palette@.len() > 0,
            old(self).wf(palette@.len()),
        ensures
            final(self).wf(palette@.len()),
            trim_seq(old(self).label_name@).len() == 0 ==> final(self).labels@ == old(self).labels@
                && final(self).label_name == old(self).label_name && final(self).label_color_index
                == old(self).label_color_index,
            trim_seq(old(self).label_name@).len() > 0 ==> {
                &&& final(self).labels@.len() == old(self).labels@.len() + 1
                &&& final(self).labels@.subrange(0, old(self).labels@.len() as int) == old(
                    self,
                ).labels@
                &&& final(self).labels@.last().name@ == trim_seq(old(self).label_name@)
                &&& final(self).labels@.last().color@ == palette@[old(
                    self,
                ).label_color_index as int]@
                &&& final(self).label_name@ == Seq::<char>::empty()
                &&& final(self).label_color_index == (old(self).label_color_index + 1) % (
                palette@.len() as int)
            },
            final(self).project_name == old(self).project_name,
            final(self).project_type == old(self).project_type,
    {
        let trimmed = trim(self.label_name.as_str());
        if trimmed.as_str().unicode_len() == 0 {
            return;
        }
        let color = palette[self.label_color_index].clone();
        let ghost before = self.labels@;
        self.labels.push(Label { name: trimmed, color });
        assert(self.labels@.subrange(0, before.len() as int) =~= before);
        self.label_name = String::new();
        let n = palette.len();
        self.label_color_index = (self.label_color_index + 1) % n;
    }

    /// Removes the label at `index`.
    pub fn handle_remove_label(&mut self, index: usize)
        requires
            index < old(self).labels@.len(),
        ensures
            final(self).labels@ == old(self).labels@.remove(index as int),
            final(self).label_color_index == old(self).label_color_index,
    {
        let _ = self.labels.remove(index);
    }

    /// Picking a colour swatch makes it the colour of the next label.
    pub fn select_label_color(&mut self, index: usize)
        ensures
            final(self).label_color_index == index,
            final(self).labels@ == old(self).labels@,
            final(self).label_name == old(self).label_name,
            final(self).project_name == old(self).project_name,
            final(self).project_type == old(self).project_type,
    {
        self.label_color_index = index;
    }

    /// The request that submitting the form sends: the name, the type and
    /// the labels as they stand; the form itself is kept until the server
    /// answers.
    pub fn create_request(&self) -> (r: CreateLabelledProjectRequest)
        ensures
            r.name == self.project_name,
            r.project_type == self.project_type,
            r.labels@ == self.labels@,
    {
        CreateLabelledProjectRequest {
            name: self.project_name.clone(),
            project_type: self.project_type.clone(),
            labels: copy_labels(&self.labels),
        }
    }

    /// Closing the form or creating the project empties it.
    pub fn reset(&mut self)
        ensures
            final(self).project_name@ == Seq::<char>::empty(),
            final(self).project_type@ == "annotation"@,
            final(self).labels@.len() == 0,
            final(self).label_name@ == Seq::<char>::empty(),
            final(self).label_color_index == 0,
    {
        self.project_name = String::new();
        self.project_type = String::from_str("annotation");
        self.labels = Vec::new();
        self.label_name = String::new();
        self.label_color_index = 0;
    }
}

} // verus!
