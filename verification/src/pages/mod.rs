//! The pages of the interface.

pub mod dashboard;
pub mod info;

use vstd::prelude::*;
use crate::translations::{page_dashboard, page_dashboard_text, page_info, page_info_text,
    page_optimization, page_optimization_text};
use crate::types::AppLanguage;

verus! {

/// The pages that the navigation bar switches between.
#[derive(Debug, PartialEq, Eq, Structural, Clone, Copy)]
pub enum Page {
    Dashboard,
    Info,
    Optimization,
}

/// Every page, in navigation order.
pub open spec fn all_pages() -> Seq<Page> {
    seq![Page::Dashboard, Page::Info, Page::Optimization]
}

/// The translated name of a page.
pub open spec fn page_name_text(page: Page, language: AppLanguage) -> Seq<char> {
    match page {
        Page::Dashboard => page_dashboard_text(language),
        Page::Info => page_info_text(language),
        Page::Optimization => page_optimization_text(language),
    }
}

impl Page {
    /// Returns every page, in navigation order.
    pub fn all() -> (v: Vec<Self>)
        ensures
            v@ == all_pages(),
    {
        let v = vec![Page::Dashboard, Page::Info, Page::Optimization];
        assert(v@ =~= all_pages());
        v
    }

    /// Returns the translated page name for the given language.
    pub fn translated_name(&self, language: AppLanguage) -> (s: &'static str)
        ensures
            s@ == page_name_text(*self, language),
    {
        match self {
            Page::Dashboard => page_dashboard(language),
            Page::Info => page_info(language),
            Page::Optimization => page_optimization(language),
        }
    }

    /// The variant's name, as the page's `Display` form reads.
    pub fn to_string(&self) -> (s: String)
        ensures
            s@ == (match *self {
                Page::Dashboard => "Dashboard"@,
                Page::Info => "Info"@,
                Page::Optimization => "Optimization"@,
            }),
    {
        match self {
            Page::Dashboard => String::from_str("Dashboard"),
            Page::Info => String::from_str("Info"),
            Page::Optimization => String::from_str("Optimization"),
        }
    }
}

/// Overview page: live power, all-time energy, emissions and the sensor cards.
pub struct DashboardPage;

/// Optimization tips page (work in progress).
pub struct OptimizationPage {}

impl OptimizationPage {
    pub fn new() -> Self {
        OptimizationPage {}
    }
}

/// Settings dialog.
pub struct SettingsPage {}

impl SettingsPage {
    pub fn new() -> Self {
        SettingsPage {}
    }
}

} // verus!
