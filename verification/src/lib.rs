//! Survival mode for the fighting game "Scarlet Weather Rhapsody": the
//! scenario scripts and story table it generates, the code patches it
//! installs and removes, and the decisions its hooks make.

pub mod text;
pub mod story_csv;
pub mod scenario_txt;
pub mod tamperer;
pub mod survival_manager;
pub mod shift_jis;
pub mod pattern;
pub mod file_hooks;
pub mod debug;
pub mod text_texture;
pub mod select_scenario;
