//! The verified core of damascus's user interface: the node graph's inputs,
//! layouts and visibility rules, the menus and their search, the tab bar,
//! panes and toolbar, the style editor's choices, the window manager's
//! decisions, and the render pipeline's shader directives.

pub mod dialog;
pub mod menu;
pub mod node_graph;
pub mod panel;
pub mod render_pipeline;
pub mod style;
pub mod tab_bar;
pub mod text;
pub mod toolbar;
pub mod viewport;
pub mod windows;
