//! The application's state and how each message changes it.
//!
//! `StarryDex::update` takes one message and returns the next state together
//! with the one piece of outside work (`Action`) that the shell around the
//! library is to carry out; the shell turns the outcome of that work back into
//! a message.
use vstd::prelude::*;

use crate::laws::{lemma_empty_query_shows_all, lemma_search_results};
use crate::pokemon::CustomPokemon;
use crate::text::{contains_chars, is_substring, lower_text, lower_text_of};

verus! {

/// Identifies a page in the application.
#[derive(Clone, Copy, Debug, PartialEq, Eq, Structural)]
pub enum Page {
    LandingPage,
}

/// Identifies the status of a page in the application.
#[derive(Clone, Copy, Debug, PartialEq, Eq, Structural)]
pub enum PageStatus {
    FirstRun,
    Loaded,
    Loading,
}

/// Identifies the status of the settings context page in the application.
#[derive(Clone, Copy, Debug, PartialEq, Eq, Structural)]
pub enum SettingsStatus {
    NotDownloading,
    Downloading,
}

/// Identifies a context page to display in the context drawer.
#[derive(Clone, Copy, Debug, PartialEq, Eq, Structural)]
pub enum ContextPage {
    About,
    Settings,
    PokemonPage,
}

impl Default for ContextPage {
    fn default() -> (p: Self)
        ensures
            p == ContextPage::About,
    {
        ContextPage::About
    }
}

/// The message id of a context page's title in the translation catalogue.
pub open spec fn title_id(p: ContextPage) -> Seq<char> {
    match p {
        ContextPage::About => "about"@,
        ContextPage::Settings => "settings"@,
        ContextPage::PokemonPage => "pokemon-page"@,
    }
}

impl ContextPage {
    /// The message id of this page's title; the caller looks the localised
    /// text up under it.
    pub fn title(&self) -> (r: String)
        ensures
            r@ == title_id(*self),
    {
        match self {
            ContextPage::About => String::from_str("about"),
            ContextPage::Settings => String::from_str("settings"),
            ContextPage::PokemonPage => String::from_str("pokemon-page"),
        }
    }
}

/// The entries of the application's menu bar.
#[derive(Clone, Copy, Debug, PartialEq, Eq, Structural)]
pub enum MenuAction {
    About,
    Settings,
}

/// Everything that can happen to the application: user input and the
/// outcome of outside work.
#[derive(Clone, Debug)]
pub enum Message {
    LaunchUrl(String),
    ToggleContextPage(ContextPage),
    Search(String),
    TogglePokemonDetails(bool),
    LoadPokemon(String),
    FixAllImages,
    DownloadAllImages,
    FirstRunSetupCompleted,
    LoadedPokemon(CustomPokemon),
    LoadedPokemonList(Vec<CustomPokemon>),
    DownloadedAllImages,
    AllImagesFixed,
}

impl MenuAction {
    /// The message that choosing this menu entry sends.
    pub fn message(&self) -> (m: Message)
        ensures
            m == (match *self {
                MenuAction::About => Message::ToggleContextPage(ContextPage::About),
                MenuAction::Settings => Message::ToggleContextPage(ContextPage::Settings),
            }),
    {
        match self {
            MenuAction::About => Message::ToggleContextPage(ContextPage::About),
            MenuAction::Settings => Message::ToggleContextPage(ContextPage::Settings),
        }
    }
}

/// The outside work that a message calls for. Each finishes by sending a
/// message: `FirstRunDownload` sends `FirstRunSetupCompleted`,
/// `DownloadAllSprites` sends `DownloadedAllImages`, `FixAllSprites` sends
/// `AllImagesFixed`, `LoadAllPokemon` sends `LoadedPokemonList` and
/// `LoadPokemon` sends `LoadedPokemon`; the others send nothing.
#[derive(Clone, Debug)]
pub enum Action {
    Nothing,
    SetContextTitle(ContextPage),
    OpenUrl(String),
    LoadPokemon(String),
    FirstRunDownload,
    DownloadAllSprites,
    FixAllSprites,
    LoadAllPokemon,
}

/// The state of the application as the contracts see it.
pub struct DexState {
    pub context_page: ContextPage,
    pub show_context: bool,
    pub current_page: Page,
    pub page_status: PageStatus,
    pub settings_status: SettingsStatus,
    pub pokemon_list: Seq<CustomPokemon>,
    /// Positions in `pokemon_list` of the Pokémon on show, in list order.
    pub filtered: Seq<usize>,
    pub selected_pokemon: Option<CustomPokemon>,
    pub search: Seq<char>,
    pub wants_pokemon_details: bool,
}

impl DexState {
    /// Every position on show lies in the list, and the list's positions fit
    /// in a `usize`.
    pub open spec fn wf(self) -> bool {
        &&& self.pokemon_list.len() <= usize::MAX
        &&& forall|i: int|
            0 <= i < self.filtered.len() ==> #[trigger] self.filtered[i] < self.pokemon_list.len()
    }
}

/// The positions `0..n`, in order.
pub open spec fn all_indices(n: nat) -> Seq<usize> {
    Seq::new(n, |i: int| i as usize)
}

/// A Pokémon is shown for a search when the lowercase search text occurs in
/// its lowercase name (see `lower_text`).
pub open spec fn name_matches(p: CustomPokemon, query: Seq<char>) -> bool {
    is_substring(lower_text(query), lower_text(p.pokemon.name@))
}

/// The positions of the Pokémon of `list` that the search `query` shows, in
/// list order.
pub open spec fn search_results(list: Seq<CustomPokemon>, query: Seq<char>) -> Seq<usize> {
    all_indices(list.len()).filter(|i: usize| name_matches(list[i as int], query))
}

/// Shows context page `p`, or, where it is already the current one, opens or
/// closes the drawer.
pub open spec fn toggled(s: DexState, p: ContextPage) -> DexState {
    if s.context_page == p {
        DexState { show_context: !s.show_context, ..s }
    } else {
        DexState { context_page: p, show_context: true, ..s }
    }
}

/// What one message does: the next state and the outside work it calls for.
pub open spec fn step(s: DexState, m: Message) -> (DexState, Action) {
    match m {
        Message::LaunchUrl(url) => (s, Action::OpenUrl(url)),
        Message::ToggleContextPage(p) => (toggled(s, p), Action::SetContextTitle(p)),
        Message::LoadedPokemonList(list) => (
            DexState {
                pokemon_list: list@,
                filtered: search_results(list@, s.search),
                page_status: PageStatus::Loaded,
                ..s
            },
            Action::Nothing,
        ),
        Message::LoadedPokemon(p) => (
            toggled(DexState { selected_pokemon: Some(p), ..s }, ContextPage::PokemonPage),
            Action::SetContextTitle(ContextPage::PokemonPage),
        ),
        Message::LoadPokemon(name) => (s, Action::LoadPokemon(name)),
        Message::Search(v) => (
            DexState { search: v@, filtered: search_results(s.pokemon_list, v@), ..s },
            Action::Nothing,
        ),
        Message::DownloadAllImages => (
            DexState { settings_status: SettingsStatus::Downloading, ..s },
            Action::DownloadAllSprites,
        ),
        Message::FixAllImages => (
            DexState { settings_status: SettingsStatus::Downloading, ..s },
            Action::FixAllSprites,
        ),
        Message::DownloadedAllImages => (
            DexState {
                settings_status: SettingsStatus::NotDownloading,
                page_status: PageStatus::Loading,
                ..s
            },
            Action::LoadAllPokemon,
        ),
        Message::AllImagesFixed => (
            DexState {
                settings_status: SettingsStatus::NotDownloading,
                page_status: PageStatus::Loading,
                ..s
            },
            Action::LoadAllPokemon,
        ),
        Message::FirstRunSetupCompleted => (
            DexState { page_status: PageStatus::Loading, ..s },
            Action::LoadAllPokemon,
        ),
        Message::TogglePokemonDetails(b) => (
            DexState { wants_pokemon_details: b, ..s },
            Action::Nothing,
        ),
    }
}

/// The state of the application.
pub struct StarryDex {
    context_page: ContextPage,
    show_context: bool,
    current_page: Page,
    page_status: PageStatus,
    settings_status: SettingsStatus,
    pokemon_list: Vec<CustomPokemon>,
    filtered_pokemon_list: Vec<usize>,
    selected_pokemon: Option<CustomPokemon>,
    search: String,
    wants_pokemon_details: bool,
}

impl View for StarryDex {
    type V = DexState;

    closed spec fn view(&self) -> DexState {
        DexState {
            context_page: self.context_page,
            show_context: self.show_context,
            current_page: self.current_page,
            page_status: self.page_status,
            settings_status: self.settings_status,
            pokemon_list: self.pokemon_list@,
            filtered: self.filtered_pokemon_list@,
            selected_pokemon: self.selected_pokemon,
            search: self.search@,
            wants_pokemon_details: self.wants_pokemon_details,
        }
    }
}

/// The state right after start-up: on a first run the sprites are being
/// downloaded, otherwise the list is loading.
pub open spec fn initial_state(first_run: bool) -> DexState {
    DexState {
        context_page: ContextPage::About,
        show_context: false,
        current_page: Page::LandingPage,
        page_status: if first_run { PageStatus::FirstRun } else { PageStatus::Loading },
        settings_status: SettingsStatus::NotDownloading,
        pokemon_list: Seq::empty(),
        filtered: Seq::empty(),
        selected_pokemon: None,
        search: Seq::empty(),
        wants_pokemon_details: false,
    }
}

/// A message is a search for the empty text.
pub open spec fn is_empty_search(m: Message) -> bool {
    match m {
        Message::Search(v) => v@.len() == 0,
        _ => false,
    }
}

impl StarryDex {
    #[verifier::type_invariant]
    closed spec fn well_formed(self) -> bool {
        self@.wf()
    }

    /// Starts the application. `first_run` tells whether this is the first
    /// start on this machine, on which all sprites are downloaded first.
    pub fn init(first_run: bool) -> (r: (StarryDex, Action))
        ensures
            r.0@ == initial_state(first_run),
            r.1 == (if first_run { Action::FirstRunDownload } else { Action::LoadAllPokemon }),
    {
        let app = StarryDex {
            context_page: ContextPage::default(),
            show_context: false,
            current_page: Page::LandingPage,
            page_status: if first_run { PageStatus::FirstRun } else { PageStatus::Loading },
            settings_status: SettingsStatus::NotDownloading,
            pokemon_list: Vec::new(),
            filtered_pokemon_list: Vec::new(),
            selected_pokemon: None,
            search: String::new(),
            wants_pokemon_details: false,
        };
        assert(app@ == initial_state(first_run));
        if first_run {
            (app, Action::FirstRunDownload)
        } else {
            (app, Action::LoadAllPokemon)
        }
    }

    /// Applies one message and returns the outside work it calls for.
    pub fn update(&mut self, message: Message) -> (a: Action)
        ensures
            final(self)@ == step(old(self)@, message).0,
            a == step(old(self)@, message).1,
            is_empty_search(message) ==> final(self)@.filtered == all_indices(
                old(self)@.pokemon_list.len(),
            ),
    {
        proof {
            use_type_invariant(&*self);
        }
        match message {
            Message::LaunchUrl(url) => Action::OpenUrl(url),
            Message::ToggleContextPage(context_page) => {
                self.toggle_context_page(context_page);
                Action::SetContextTitle(context_page)
            },
            Message::LoadedPokemonList(pokemons) => {
                self.filtered_pokemon_list = Vec::new();
                assert(pokemons@.len() == pokemons.len());
                self.pokemon_list = pokemons;
                let filtered = search_indices(&self.pokemon_list, self.search.as_str());
                proof {
                    lemma_search_results(self.pokemon_list@, self.search@);
                }
                self.filtered_pokemon_list = filtered;
                self.page_status = PageStatus::Loaded;
                Action::Nothing
            },
            Message::LoadedPokemon(pokemon) => {
                self.selected_pokemon = Some(pokemon);
                self.toggle_context_page(ContextPage::PokemonPage);
                Action::SetContextTitle(ContextPage::PokemonPage)
            },
            Message::LoadPokemon(pokemon_name) => Action::LoadPokemon(pokemon_name),
            Message::Search(new_value) => {
                let filtered = search_indices(&self.pokemon_list, new_value.as_str());
                proof {
                    lemma_search_results(self.pokemon_list@, new_value@);
                }
                self.search = new_value;
                self.filtered_pokemon_list = filtered;
                Action::Nothing
            },
            Message::DownloadAllImages => {
                self.settings_status = SettingsStatus::Downloading;
                Action::DownloadAllSprites
            },
            Message::FixAllImages => {
                self.settings_status = SettingsStatus::Downloading;
                Action::FixAllSprites
            },
            Message::DownloadedAllImages => {
                self.settings_status = SettingsStatus::NotDownloading;
                self.page_status = PageStatus::Loading;
                Action::LoadAllPokemon
            },
            Message::AllImagesFixed => {
                self.settings_status = SettingsStatus::NotDownloading;
                self.page_status = PageStatus::Loading;
                Action::LoadAllPokemon
            },
            Message::FirstRunSetupCompleted => {
                self.page_status = PageStatus::Loading;
                Action::LoadAllPokemon
            },
            Message::TogglePokemonDetails(value) => {
                self.wants_pokemon_details = value;
                Action::Nothing
            },
        }
    }

    /// Shows `p` in the context drawer, or opens or closes the drawer where
    /// `p` is already the page in it.
    fn toggle_context_page(&mut self, p: ContextPage)
        ensures
            final(self)@ == toggled(old(self)@, p),
    {
        proof {
            use_type_invariant(&*self);
        }
        if self.context_page == p {
            self.show_context = !self.show_context;
        } else {
            self.context_page = p;
            self.show_context = true;
        }
    }

    /// The context page in the drawer, or `None` while the drawer is closed.
    pub fn context_drawer(&self) -> (r: Option<ContextPage>)
        ensures
            r == (if self@.show_context { Some(self@.context_page) } else { None }),
    {
        if !self.show_context {
            return None;
        }
        Some(self.context_page)
    }

    /// Whether the context drawer is open.
    pub fn show_context(&self) -> (r: bool)
        ensures
            r == self@.show_context,
    {
        self.show_context
    }

    /// Records that the drawer was opened or closed from outside, as by its
    /// close button.
    pub fn set_show_context(&mut self, show: bool)
        ensures
            final(self)@ == (DexState { show_context: show, ..old(self)@ }),
    {
        proof {
            use_type_invariant(&*self);
        }
        self.show_context = show;
    }

    /// The page in the context drawer.
    pub fn context_page(&self) -> (r: ContextPage)
        ensures
            r == self@.context_page,
    {
        self.context_page
    }

    /// The page on show.
    pub fn current_page(&self) -> (r: Page)
        ensures
            r == self@.current_page,
    {
        self.current_page
    }

    /// The status of the landing page.
    pub fn page_status(&self) -> (r: PageStatus)
        ensures
            r == self@.page_status,
    {
        self.page_status
    }

    /// Whether a download runs.
    pub fn settings_status(&self) -> (r: SettingsStatus)
        ensures
            r == self@.settings_status,
    {
        self.settings_status
    }

    /// The search text.
    pub fn search(&self) -> (r: &str)
        ensures
            r@ == self@.search,
    {
        self.search.as_str()
    }

    /// Whether the encounter details are wanted on the Pokémon page.
    pub fn wants_pokemon_details(&self) -> (r: bool)
        ensures
            r == self@.wants_pokemon_details,
    {
        self.wants_pokemon_details
    }

    /// All loaded Pokémon.
    pub fn pokemon_list(&self) -> (r: &Vec<CustomPokemon>)
        ensures
            r@ == self@.pokemon_list,
    {
        &self.pokemon_list
    }

    /// The positions in the list of the Pokémon on show, in list order; each
    /// lies in the list.
    pub fn filtered_pokemon_list(&self) -> (r: &Vec<usize>)
        ensures
            r@ == self@.filtered,
            self@.wf(),
    {
        proof {
            use_type_invariant(self);
        }
        &self.filtered_pokemon_list
    }

    /// The Pokémon on the Pokémon page, if any.
    pub fn selected_pokemon(&self) -> (r: &Option<CustomPokemon>)
        ensures
            *r == self@.selected_pokemon,
    {
        &self.selected_pokemon
    }
}

/// The positions of the Pokémon of `list` that the search `query` shows.
pub fn search_indices(list: &Vec<CustomPokemon>, query: &str) -> (r: Vec<usize>)
    ensures
        r@ == search_results(list@, query@),
        query@.len() == 0 ==> r@ == all_indices(list@.len()),
{
    let qc = lower_text_of(query);
    let n = list.len();
    let ghost pred = |i: usize| name_matches(list@[i as int], query@);
    let mut r: Vec<usize> = Vec::new();
    let mut i: usize = 0;
    while i < n
        invariant
            n == list@.len(),
            i <= n,
            qc@ == lower_text(query@),
            pred == (|i: usize| name_matches(list@[i as int], query@)),
            r@ == all_indices(i as nat).filter(pred),
        decreases n - i,
    {
        let nc = lower_text_of(list[i].pokemon.name.as_str());
        let hit = contains_chars(&nc, &qc);
        proof {
            reveal_with_fuel(Seq::<usize>::filter, 1);
            assert(all_indices((i + 1) as nat).drop_last() =~= all_indices(i as nat));
            assert(all_indices((i + 1) as nat).last() == i);
        }
        if hit {
            r.push(i);
        }
        i = i + 1;
    }
    assert(all_indices(n as nat) =~= all_indices(list@.len()));
    proof {
        if query@.len() == 0 {
            lemma_empty_query_shows_all(list@, query@);
        }
    }
    r
}

} // verus!
