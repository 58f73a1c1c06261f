//! Two panes of a terminal dashboard for browsing an OpenAPI document: a
//! static profile panel and a tag-navigation panel that writes the current
//! selection back into the state that every pane shares.

pub mod action;
pub mod state;
pub mod navigation;
pub mod presentation;
pub mod profiles;
pub mod tags;
pub mod text;
