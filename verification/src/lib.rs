//! Core of a Chinese word-segmentation tool: a registry of named
//! segmentation dictionaries with an always-valid selection, text
//! operations over the selected engine, a batch-processing state machine,
//! and a notification center for dismissible error records.

pub mod app;
pub mod batch;
pub mod engine;
pub mod locale;
pub mod notify;
pub mod registry;
pub mod text;
