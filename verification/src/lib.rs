//! Kid Internet Lock: weekly internet block schedules, their evaluation and
//! the texts shown to parents and kids.

pub mod text;
pub mod encoding;
pub mod clock;
pub mod password;
pub mod config;
pub mod schedule;
pub mod lang;
pub mod lang_ko;
pub mod texts;
pub mod wallpaper;
pub mod scheduler;
pub mod viewer;
pub mod tasks;
pub mod firewall;
pub mod settings;
pub mod guard;
pub mod menu;
pub mod bmp;
pub mod laws;
