//! Verified core of the Doxle web client: the rules, state transitions and
//! text handling behind its pages, separated from the browser and network.

pub mod auth;
pub mod canvas_gesture;
pub mod comment;
pub mod dates;
pub mod estimate_drawing;
pub mod estimate_flow;
pub mod estimate_types;
pub mod labels;
pub mod letter_cycle;
pub mod media;
pub mod navbar;
pub mod page_store;
pub mod projects;
pub mod projects_page;
pub mod share;
pub mod text;
pub mod theme;
pub mod upload;
