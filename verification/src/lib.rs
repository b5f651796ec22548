//! Core logic of the notiser notification daemon: notification records,
//! hint decoding, the active-notification store, history, click handling,
//! layout predicates and the decision parts of configuration loading.

pub mod notification;
pub mod strmap;
pub mod text;
pub mod layout;
pub mod action;
pub mod hints;
pub mod manager;
pub mod history;
pub mod config;
pub mod animation;
pub mod settings;
pub mod input;
pub mod daemon;
pub mod imaging;
pub mod strategy;
pub mod watcher;
pub mod paths;
