//! The decisions of the application shell: which page is shown, which dialog
//! is open, the chosen theme and language, and what each event asks the
//! sensors and the database to do.

use vstd::prelude::*;
use crate::components::header::Header;
use crate::pages::{Page, all_pages};
use crate::themes::AppTheme;
use crate::translations::{window_title, window_title_text};
use crate::types::AppLanguage;

verus! {

/// Events that change the shell's own state.
#[derive(Clone, Debug)]
pub enum UiEvent {
    Tick,
    NavigateTo(Page),
    ChangeTheme(AppTheme),
    ChangeLanguage(AppLanguage),
    OpenSettings,
    CloseSettings,
    OpenInfoModal(String),
    CloseInfoModal,
}

/// What the shell asks for after an event.
#[derive(Clone, Copy, Debug, PartialEq, Eq, Structural)]
pub enum UiAction {
    /// Nothing beyond the state change.
    Nothing,
    /// Load the newest readings and the all-time totals; also reload the
    /// process list when `refresh_processes` holds.
    LoadLatest { refresh_processes: bool },
    /// Restyle every sensor chart with the theme.
    RestyleSensors(AppTheme),
    /// Translate every sensor chart into the language.
    RetranslateSensors(AppLanguage),
}

/// The dialog drawn over the page.
#[derive(Clone, Debug)]
pub enum Overlay {
    NoOverlay,
    Settings,
    InfoModal(String),
}

/// Every how many ticks the process list is reloaded.
pub open spec fn process_refresh_period() -> nat {
    10
}

/// The shell's state.
pub struct AppState {
    current_page: Page,
    header: Header,
    settings_open: bool,
    info_modal_open: Option<String>,
    language: AppLanguage,
    theme: AppTheme,
    tick_count: u64,
}

/// The shell's state as plain values.
pub struct AppStateView {
    pub current_page: Page,
    pub settings_open: bool,
    pub info_modal_open: Option<Seq<char>>,
    pub language: AppLanguage,
    pub theme: AppTheme,
    pub tick_count: nat,
}

impl View for AppState {
    type V = AppStateView;

    closed spec fn view(&self) -> AppStateView {
        AppStateView {
            current_page: self.current_page,
            settings_open: self.settings_open,
            info_modal_open: match self.info_modal_open {
                Some(k) => Some(k@),
                None => None,
            },
            language: self.language,
            theme: self.theme,
            tick_count: self.tick_count as nat,
        }
    }
}

/// The state after an event, as plain values.
pub open spec fn next_view(s: AppStateView, event: UiEvent) -> AppStateView {
    match event {
        UiEvent::Tick => AppStateView { tick_count: s.tick_count + 1, ..s },
        UiEvent::NavigateTo(page) => AppStateView { current_page: page, ..s },
        UiEvent::ChangeTheme(theme) => AppStateView { theme, ..s },
        UiEvent::ChangeLanguage(language) => AppStateView { language, ..s },
        UiEvent::OpenSettings => AppStateView { settings_open: true, ..s },
        UiEvent::CloseSettings => AppStateView { settings_open: false, ..s },
        UiEvent::OpenInfoModal(target) => AppStateView { info_modal_open: Some(target@), ..s },
        UiEvent::CloseInfoModal => AppStateView { info_modal_open: None, ..s },
    }
}

/// What the shell asks for after an event in state `s`.
pub open spec fn action_of(s: AppStateView, event: UiEvent) -> UiAction {
    match event {
        UiEvent::Tick => UiAction::LoadLatest {
            refresh_processes: (s.tick_count + 1) % process_refresh_period() == 0,
        },
        UiEvent::ChangeTheme(theme) => UiAction::RestyleSensors(theme),
        UiEvent::ChangeLanguage(language) => UiAction::RetranslateSensors(language),
        _ => UiAction::Nothing,
    }
}

/// Whether `o` is the dialog drawn over the page in state `s`: settings take
/// precedence over an information dialog.
pub open spec fn is_overlay_of(o: Overlay, s: AppStateView) -> bool {
    match o {
        Overlay::Settings => s.settings_open,
        Overlay::InfoModal(k) => !s.settings_open && s.info_modal_open == Some(k@),
        Overlay::NoOverlay => !s.settings_open && s.info_modal_open is None,
    }
}

/// Whether the `i`-th tick after a count of `c` ticks reloads the process list.
pub open spec fn refreshes_on(c: nat, i: nat) -> bool {
    (c + i) % process_refresh_period() == 0
}

/// Of any ten consecutive ticks exactly one reloads the process list.
pub proof fn lemma_process_refresh_once_per_period(s: AppStateView)
    ensures
        ({
            let k = (process_refresh_period() - s.tick_count % process_refresh_period()) as nat;
            &&& 1 <= k <= process_refresh_period()
            &&& refreshes_on(s.tick_count, k)
            &&& forall|i: nat| 1 <= i <= process_refresh_period() && #[trigger] refreshes_on(s.tick_count, i) ==> i == k
        }),
{
    let k = (10 - s.tick_count % 10) as nat;
    assert forall|i: nat| 1 <= i <= 10 && #[trigger] refreshes_on(s.tick_count, i) implies i == k by {
        assert((s.tick_count + i) % 10 == (s.tick_count % 10 + i) % 10) by (nonlinear_arith);
    }
    assert((s.tick_count + k) % 10 == (s.tick_count % 10 + k) % 10) by (nonlinear_arith);
}

/// Open settings hide an information dialog, and closing them shows it again.
pub proof fn lemma_settings_cover_info_modal(s: AppStateView, o: Overlay, target: Seq<char>)
    requires
        s.info_modal_open == Some(target),
    ensures
        is_overlay_of(o, next_view(s, UiEvent::OpenSettings)) ==> o is Settings,
        is_overlay_of(o, next_view(s, UiEvent::CloseSettings)) ==> (o matches Overlay::InfoModal(k) && k@ == target),
{
}

/// Navigating shows the page and changes nothing else of the shell's state.
pub proof fn lemma_navigation_only_moves_page(s: AppStateView, page: Page)
    ensures
        next_view(s, UiEvent::NavigateTo(page)).current_page == page,
        next_view(s, UiEvent::NavigateTo(page)) == (AppStateView { current_page: page, ..s }),
        action_of(s, UiEvent::NavigateTo(page)) == UiAction::Nothing,
{
}

impl AppState {
    /// The header always highlights the current page and lists every page.
    pub closed spec fn wf(&self) -> bool {
        &&& self.header.spec_active_page() == self.current_page
        &&& self.header.spec_nav_pages() == all_pages()
    }

    /// The state at start-up: dashboard, no dialog, English, the default theme,
    /// no tick yet.
    pub fn new() -> (s: Self)
        ensures
            s.wf(),
            s@ == (AppStateView {
                current_page: Page::Dashboard,
                settings_open: false,
                info_modal_open: None,
                language: AppLanguage::English,
                theme: AppTheme::EcoEnergy,
                tick_count: 0,
            }),
    {
        let current_page = Page::Dashboard;
        AppState {
            current_page,
            header: Header::new(Page::all(), current_page),
            settings_open: false,
            info_modal_open: None,
            language: AppLanguage::English,
            theme: AppTheme::EcoEnergy,
            tick_count: 0,
        }
    }

    /// Applies an event and returns what the sensors and the database must do.
    pub fn update(&mut self, event: UiEvent) -> (action: UiAction)
        requires
            old(self).wf(),
            event is Tick ==> old(self)@.tick_count < u64::MAX,
        ensures
            final(self).wf(),
            final(self)@ == next_view(old(self)@, event),
            action == action_of(old(self)@, event),
    {
        match event {
            UiEvent::Tick => {
                self.tick_count = self.tick_count + 1;
                UiAction::LoadLatest { refresh_processes: self.tick_count % 10 == 0 }
            },
            UiEvent::NavigateTo(page) => {
                self.current_page = page;
                self.header.change_page(page);
                UiAction::Nothing
            },
            UiEvent::ChangeTheme(theme) => {
                self.theme = theme;
                UiAction::RestyleSensors(theme)
            },
            UiEvent::ChangeLanguage(language) => {
                self.language = language;
                UiAction::RetranslateSensors(language)
            },
            UiEvent::OpenSettings => {
                self.settings_open = true;
                UiAction::Nothing
            },
            UiEvent::CloseSettings => {
                self.settings_open = false;
                UiAction::Nothing
            },
            UiEvent::OpenInfoModal(target) => {
                self.info_modal_open = Some(target);
                UiAction::Nothing
            },
            UiEvent::CloseInfoModal => {
                self.info_modal_open = None;
                UiAction::Nothing
            },
        }
    }

    /// The dialog to draw over the page.
    pub fn overlay(&self) -> (o: Overlay)
        ensures
            is_overlay_of(o, self@),
    {
        if self.settings_open {
            Overlay::Settings
        } else {
            match &self.info_modal_open {
                Some(k) => Overlay::InfoModal(k.clone()),
                None => Overlay::NoOverlay,
            }
        }
    }

    /// The page shown.
    pub fn current_page(&self) -> (p: Page)
        ensures
            p == self@.current_page,
    {
        self.current_page
    }

    /// The navigation bar.
    pub fn header(&self) -> (h: &Header)
        requires
            self.wf(),
        ensures
            h.spec_active_page() == self@.current_page,
            h.spec_nav_pages() == all_pages(),
    {
        &self.header
    }

    /// The interface language.
    pub fn language(&self) -> (l: AppLanguage)
        ensures
            l == self@.language,
    {
        self.language
    }

    /// The colour theme.
    pub fn theme(&self) -> (t: AppTheme)
        ensures
            t == self@.theme,
    {
        self.theme
    }

    /// The number of ticks seen so far.
    pub fn tick_count(&self) -> (n: u64)
        ensures
            n == self@.tick_count,
    {
        self.tick_count
    }

    /// The window title, in the interface language.
    pub fn title(&self) -> (s: String)
        ensures
            s@ == window_title_text(self@.language),
    {
        String::from_str(window_title(self.language))
    }
}

} // verus!
