//! Verified core of a terminal user interface for semantic releases:
//! components, keyboard navigation, layout and theming rules.

pub mod component;
pub mod keys;
pub mod keyboard;
pub mod text;
pub mod assoc;
pub mod checkbox;
pub mod radio;
pub mod lifecycle;
pub mod layout;
pub mod placement;
pub mod clock;
pub mod animations;
pub mod tui;
pub mod status_bar;
pub mod dialogs;
pub mod style;
pub mod button;
pub mod select;
pub mod text_input;
pub mod text_input_demo;
pub mod form;
pub mod search;
pub mod theme;
pub mod colors;
pub mod styles;
pub mod theme_manager;
pub mod theme_demo;
pub mod split_pane;
pub mod tabs;
pub mod sidebar;
pub mod lists;
pub mod cli;
pub mod rendering;
pub mod container;
pub mod services;
