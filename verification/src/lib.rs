use vstd::prelude::*;

pub mod city_window;
pub mod commands;
pub mod diplomacy_dialog;
pub mod game_screen;
pub mod geometry;
pub mod map_view;
pub mod model;
pub mod pointer;
pub mod production_picker;
pub mod navigation;
pub mod quit_dialog;
pub mod research_dialog;
pub mod save_load_prompt;
pub mod selectors;
pub mod setup;
pub mod text;

verus! {

} // verus!
