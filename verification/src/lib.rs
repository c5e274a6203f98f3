//! Verified core of the WattSeal user interface: time ranges, languages,
//! translated labels, text formatting and the page/navigation model.

pub mod app_state;
pub mod clock;
pub mod components;
pub mod icons;
pub mod pages;
pub mod styles;
pub mod text;
pub mod themes;
pub mod translations;
pub mod types;
