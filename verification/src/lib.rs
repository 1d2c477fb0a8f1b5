//! Terminal widget logic: layout arithmetic, state machines and text
//! projections behind a family of terminal widgets, with contracts.

pub mod geometry;
pub mod input;
pub mod style;
pub mod text;
pub mod semantic_status;
pub mod status_strip;
pub mod table;
pub mod split_pane;
pub mod interaction;
pub mod status_bar;
pub mod markdown_fence;
pub mod streaming_markdown;
pub mod spinner;
pub mod status_indicator;
pub mod tag_chip;
pub mod stepper;
pub mod tabs;
pub mod surface;
pub mod slider;
pub mod table_chrome;
pub mod terminal_cell_grid;
pub mod table_state;
