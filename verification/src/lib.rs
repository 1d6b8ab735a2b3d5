use vstd::prelude::*;

pub mod config;
pub mod text;
pub mod ytdlp;
pub mod library;
pub mod playlist;
pub mod app;
pub mod settings;
pub mod events;
pub mod keys;
pub mod view;
pub mod vtt;
pub mod stats;
pub mod captions;
pub mod sort;
pub mod local_scan;
pub mod audio;
pub mod ui;
pub mod mpris;
pub mod gui;
pub mod clipboard;
pub mod sprites;

verus! {

} // verus!
