//! The bars at the top of the app: avatar, breadcrumbs, sidebar button and
//! annotation tools.
use vstd::prelude::*;
use vstd::string::*;
use crate::text::{char_to_uppercase, uppercase_char};

verus! {

/// Letter shown in an avatar: the first character of the name, upper-cased,
/// or the fallback character when the name is empty or unknown.
pub open spec fn spec_avatar_initial(name: Option<Seq<char>>, fallback: char) -> Seq<char> {
    match name {
        Some(n) => if n.len() > 0 {
            uppercase_char(n[0])
        } else {
            uppercase_char(fallback)
        },
        None => uppercase_char(fallback),
    }
}

/// Letter shown in an avatar (see `spec_avatar_initial`): `U` in the app bar
/// for the user, `?` for an invited address.
pub fn avatar_initial(name: Option<&str>, fallback: char) -> (initial: String)
    ensures
        initial@ == spec_avatar_initial(name.deep_view(), fallback),
{
    match name {
        Some(n) => {
            if n.unicode_len() > 0 {
                char_to_uppercase(n.get_char(0))
            } else {
                char_to_uppercase(fallback)
            }
        },
        None => char_to_uppercase(fallback),
    }
}

/// Tooltip of the sidebar button.
pub fn sidebar_toggle_title(sidebar_open: bool) -> (title: &'static str)
    ensures
        sidebar_open ==> title@ == "Close Sidebar"@,
        !sidebar_open ==> title@ == "Open Sidebar"@,
{
    if sidebar_open {
        "Close Sidebar"
    } else {
        "Open Sidebar"
    }
}

/// Where the app bar is shown, which decides its breadcrumbs.
#[derive(Clone, Copy, PartialEq, Eq, Debug)]
pub enum NavbarContext {
    Projects,
    Blocks { project_name: &'static str },
    Canvas { block_name: &'static str },
}

/// Breadcrumbs of the app bar: "Projects", then the project or block when
/// there is one.
pub fn breadcrumbs(context: NavbarContext) -> (crumbs: Vec<&'static str>)
    ensures
        context matches NavbarContext::Projects ==> crumbs@.len() == 1 && crumbs@[0]@
            == "Projects"@,
        context matches NavbarContext::Blocks { project_name } ==> crumbs@.len() == 2
            && crumbs@[0]@ == "Projects"@ && crumbs@[1] == project_name,
        context matches NavbarContext::Canvas { block_name } ==> crumbs@.len() == 2
            && crumbs@[0]@ == "Projects"@ && crumbs@[1] == block_name,
{
    let mut crumbs: Vec<&'static str> = Vec::new();
    crumbs.push("Projects");
    match context {
        NavbarContext::Projects => {},
        NavbarContext::Blocks { project_name } => crumbs.push(project_name),
        NavbarContext::Canvas { block_name } => crumbs.push(block_name),
    }
    crumbs
}

/// Annotation tools of the image canvas.
#[derive(Clone, Copy, PartialEq, Eq, Debug, Structural)]
pub enum AnnotationTool {
    Polygon,
    BoundingBox,
}

/// Class of a tool button: highlighted when it is the selected tool.
pub fn tool_button_class(selected: Option<AnnotationTool>, tool: AnnotationTool) -> (class:
    &'static str)
    ensures
        selected == Some(tool) ==> class@ == "navbar-tool-button active"@,
        selected != Some(tool) ==> class@ == "navbar-tool-button"@,
{
    let is_selected = match selected {
        Some(t) => t == tool,
        None => false,
    };
    if is_selected {
        "navbar-tool-button active"
    } else {
        "navbar-tool-button"
    }
}

} // verus!
