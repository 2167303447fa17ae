//! Terminal interface logic: pointer mapping, tooltips, the narrative
//! panel and the text the widgets show.

pub mod mouse;
pub mod tooltip;
pub mod render;
pub mod widgets;
