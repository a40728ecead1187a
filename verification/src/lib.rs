//! The verified decision logic of the desktop notification and media services.

pub mod action;
pub mod assoc;
pub mod controls;
pub mod event_laws;
pub mod gtk;
pub mod gtk_laws;
pub mod hints;
pub mod image_cache;
pub mod image_laws;
pub mod json;
pub mod laws;
pub mod lists;
pub mod media;
pub mod media_laws;
pub mod monitoring;
pub mod notification;
pub mod owners;
pub mod persistence;
pub mod source;
pub mod store;
pub mod store_laws;
pub mod text;
pub mod time;
pub mod types;
pub mod value;
