//! Discovery and reconciliation of ripped media sessions.
//!
//! Paths found under a source tree are classified into renamed TV episodes,
//! renamed movies and encode-directory markers, grouped by session, and joined
//! with the encode directory that each session declares.

pub mod entry_type;
pub mod error;
pub mod file_mapper;
pub mod grouping;
pub mod handbrake;
pub mod hb_output_parser;
pub mod models;
pub mod patterns;
pub mod profiles;
pub mod reconcile;
pub mod seqs;
pub mod sorting;
pub mod text;
pub mod user_choices;
pub mod user_selection;
