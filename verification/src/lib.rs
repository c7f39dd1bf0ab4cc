//! Verified core of the oxicode terminal front end.
use vstd::prelude::*;

pub mod agent_events;
pub mod composer_keys;
pub mod brain;
pub mod chrome;
pub mod controls;
pub mod display;
pub mod fold;
pub mod help;
pub mod inline_events;
pub mod input_keys;
pub mod laws;
pub mod line_render;
pub mod loop_policy;
pub mod notifications;
pub mod numfmt;
pub mod oauth;
pub mod overlay;
pub mod palette;
pub mod panel;
pub mod prompt_queue;
pub mod provider;
pub mod render_state;
pub mod row_plan;
pub mod scrollback;
pub mod secure;
pub mod setting_defs;
pub mod settings_commit;
pub mod settings_panel;
pub mod slash;
pub mod status_bar;
pub mod stream;
pub mod text;
pub mod todo;
pub mod todo_pane;
pub mod tool_box;
pub mod tool_output;
pub mod transcript;

verus! {
} // verus!
