//! Renderer-independent logic of the TaskForest iced frontend: the language
//! dictionary, input-modality tracking, capture markers, focus identities,
//! the per-process performance ring, the first-run dialog state machine,
//! read-only text selection, segmented-control navigation, directory-usage
//! targeting and totals, saved-view tokens and transfer, keyboard
//! normalization, tray intents, the Applications table's columns, rows,
//! menus and action bar, the window chrome, the application history and the
//! history replay, the About, health, affinity, containers and insights
//! surfaces, and the diagnostics exports.

pub mod text;
pub mod i18n;
pub mod perf_history;
pub mod focus;
pub mod capture;
pub mod input_modality;
pub mod first_run;
pub mod selectable_text;
pub mod inputs;
pub mod directory_usage;
pub mod saved_views;
pub mod keys;
pub mod applications;
pub mod health;
pub mod theme;
pub mod scale;
pub mod tray;
pub mod feature_coverage;
pub mod capabilities;
pub mod export;
pub mod highlight;
pub mod app_history;
pub mod about;
pub mod columns;
pub mod process_menu;
pub mod chrome;
pub mod affinity;
pub mod containers;
pub mod insights;
pub mod panels;
pub mod focusable;
