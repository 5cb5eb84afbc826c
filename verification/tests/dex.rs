use starrydex::app::{
    Action, ContextPage, MenuAction, Message, Page, PageStatus, SettingsStatus, StarryDex,
};
use starrydex::pokemon::{
    CustomPokemon, LocationAreaEncounter, Pokemon, PokemonStat, PokemonType,
    VersionEncounterDetail,
};
use starrydex::text::{capitalize_string, contains_str};
use starrydex::views::{LandingView, SpriteSource};

fn mon(name: &str, sprite: Option<&str>) -> CustomPokemon {
    CustomPokemon {
        pokemon: Pokemon {
            name: name.to_string(),
            weight: 69,
            height: 7,
            stats: vec![
                PokemonStat { name: "hp".to_string(), base_stat: 45 },
                PokemonStat { name: "special-attack".to_string(), base_stat: 65 },
            ],
            types: vec![
                PokemonType { name: "grass".to_string() },
                PokemonType { name: "poison".to_string() },
            ],
        },
        sprite_path: sprite.map(|s| s.to_string()),
        encounter_info: None,
    }
}

fn names() -> Vec<CustomPokemon> {
    vec![
        mon("bulbasaur", Some("/sprites/1.png")),
        mon("ivysaur", None),
        mon("venusaur", Some("/sprites/3.png")),
        mon("charmander", None),
        mon("mr-mime", None),
    ]
}

fn loaded() -> StarryDex {
    let (mut app, _) = StarryDex::init(false);
    app.update(Message::LoadedPokemonList(names()));
    app
}

fn shown_names(app: &StarryDex) -> Vec<String> {
    app.filtered_pokemon_list()
        .iter()
        .map(|&i| app.pokemon_list()[i].pokemon.name.clone())
        .collect()
}

#[test]
fn init_first_run_downloads_sprites() {
    let (app, action) = StarryDex::init(true);
    assert!(matches!(action, Action::FirstRunDownload));
    assert_eq!(app.page_status(), PageStatus::FirstRun);
    assert_eq!(app.settings_status(), SettingsStatus::NotDownloading);
    assert_eq!(app.context_page(), ContextPage::About);
    assert!(!app.show_context());
    assert_eq!(app.current_page(), Page::LandingPage);
    assert!(matches!(app.landing(), LandingView::FirstRun));
}

#[test]
fn init_later_run_loads_list() {
    let (app, action) = StarryDex::init(false);
    assert!(matches!(action, Action::LoadAllPokemon));
    assert_eq!(app.page_status(), PageStatus::Loading);
    assert!(matches!(app.landing(), LandingView::Loading));
}

#[test]
fn loaded_list_is_shown_whole() {
    let app = loaded();
    assert_eq!(app.page_status(), PageStatus::Loaded);
    assert_eq!(app.filtered_pokemon_list(), &vec![0, 1, 2, 3, 4]);
}

#[test]
fn search_is_case_insensitive_substring() {
    let mut app = loaded();
    let a = app.update(Message::Search("SAUR".to_string()));
    assert!(matches!(a, Action::Nothing));
    assert_eq!(shown_names(&app), vec!["bulbasaur", "ivysaur", "venusaur"]);
    assert_eq!(app.search(), "SAUR");
    assert_eq!(app.pokemon_list().len(), 5);
}

#[test]
fn search_in_middle_of_name() {
    let mut app = loaded();
    app.update(Message::Search("arm".to_string()));
    assert_eq!(shown_names(&app), vec!["charmander"]);
    app.update(Message::Search("xyz".to_string()));
    assert!(app.filtered_pokemon_list().is_empty());
}

#[test]
fn empty_search_shows_all() {
    let mut app = loaded();
    app.update(Message::Search("ivy".to_string()));
    assert_eq!(app.filtered_pokemon_list().len(), 1);
    app.update(Message::Search(String::new()));
    assert_eq!(app.filtered_pokemon_list(), &vec![0, 1, 2, 3, 4]);
}

#[test]
fn search_twice_is_search_once() {
    let mut app = loaded();
    app.update(Message::Search("a".to_string()));
    let first = app.filtered_pokemon_list().clone();
    app.update(Message::Search("a".to_string()));
    assert_eq!(app.filtered_pokemon_list(), &first);
}

#[test]
fn new_list_keeps_search() {
    let mut app = loaded();
    app.update(Message::Search("char".to_string()));
    app.update(Message::DownloadAllImages);
    app.update(Message::DownloadedAllImages);
    app.update(Message::LoadedPokemonList(names()));
    assert_eq!(app.search(), "char");
    assert_eq!(app.filtered_pokemon_list(), &vec![3]);
    assert_eq!(shown_names(&app), vec!["charmander"]);
}

#[test]
fn new_list_without_search_is_shown_whole() {
    let mut app = loaded();
    app.update(Message::Search(String::new()));
    app.update(Message::LoadedPokemonList(names()));
    assert_eq!(app.filtered_pokemon_list(), &vec![0, 1, 2, 3, 4]);
}

#[test]
fn toggle_same_page_twice_restores() {
    let (mut app, _) = StarryDex::init(false);
    let a = app.update(Message::ToggleContextPage(ContextPage::About));
    assert!(matches!(a, Action::SetContextTitle(ContextPage::About)));
    assert!(app.show_context());
    app.update(Message::ToggleContextPage(ContextPage::About));
    assert!(!app.show_context());
    assert_eq!(app.context_page(), ContextPage::About);
}

#[test]
fn toggle_other_page_opens_it() {
    let (mut app, _) = StarryDex::init(false);
    app.update(Message::ToggleContextPage(ContextPage::About));
    app.update(Message::ToggleContextPage(ContextPage::Settings));
    assert!(app.show_context());
    assert_eq!(app.context_page(), ContextPage::Settings);
    assert_eq!(app.context_drawer(), Some(ContextPage::Settings));
    app.set_show_context(false);
    assert_eq!(app.context_drawer(), None);
}

#[test]
fn menu_actions_toggle_pages() {
    assert!(matches!(
        MenuAction::About.message(),
        Message::ToggleContextPage(ContextPage::About)
    ));
    assert!(matches!(
        MenuAction::Settings.message(),
        Message::ToggleContextPage(ContextPage::Settings)
    ));
}

#[test]
fn context_page_title_ids() {
    assert_eq!(ContextPage::About.title(), "about");
    assert_eq!(ContextPage::Settings.title(), "settings");
    assert_eq!(ContextPage::PokemonPage.title(), "pokemon-page");
    assert_eq!(ContextPage::default(), ContextPage::About);
}

#[test]
fn loaded_pokemon_is_selected_and_shown() {
    let (mut app, _) = StarryDex::init(false);
    let a = app.update(Message::LoadedPokemon(mon("pikachu", None)));
    assert!(matches!(a, Action::SetContextTitle(ContextPage::PokemonPage)));
    assert!(app.show_context());
    assert_eq!(app.context_page(), ContextPage::PokemonPage);
    assert_eq!(
        app.selected_pokemon().as_ref().unwrap().pokemon.name,
        "pikachu"
    );
    app.update(Message::LoadedPokemon(mon("raichu", None)));
    assert!(!app.show_context());
    assert_eq!(app.selected_pokemon().as_ref().unwrap().pokemon.name, "raichu");
}

#[test]
fn requests_keep_state() {
    let mut app = loaded();
    let a = app.update(Message::LaunchUrl("https://example.org".to_string()));
    assert!(matches!(a, Action::OpenUrl(ref u) if u == "https://example.org"));
    let b = app.update(Message::LoadPokemon("ivysaur".to_string()));
    assert!(matches!(b, Action::LoadPokemon(ref n) if n == "ivysaur"));
    assert_eq!(app.page_status(), PageStatus::Loaded);
    assert_eq!(app.filtered_pokemon_list().len(), 5);
}

#[test]
fn download_cycle() {
    let mut app = loaded();
    let a = app.update(Message::DownloadAllImages);
    assert!(matches!(a, Action::DownloadAllSprites));
    assert_eq!(app.settings_status(), SettingsStatus::Downloading);
    let s = app.settings();
    assert!(!s.downloads_enabled);
    assert!(s.downloading_notice);
    let b = app.update(Message::DownloadedAllImages);
    assert!(matches!(b, Action::LoadAllPokemon));
    assert_eq!(app.settings_status(), SettingsStatus::NotDownloading);
    assert_eq!(app.page_status(), PageStatus::Loading);
    let s = app.settings();
    assert!(s.downloads_enabled);
    assert!(!s.downloading_notice);
}

#[test]
fn fix_cycle_and_first_run() {
    let (mut app, _) = StarryDex::init(true);
    let a = app.update(Message::FirstRunSetupCompleted);
    assert!(matches!(a, Action::LoadAllPokemon));
    assert_eq!(app.page_status(), PageStatus::Loading);
    let b = app.update(Message::FixAllImages);
    assert!(matches!(b, Action::FixAllSprites));
    assert_eq!(app.settings_status(), SettingsStatus::Downloading);
    let c = app.update(Message::AllImagesFixed);
    assert!(matches!(c, Action::LoadAllPokemon));
    assert_eq!(app.settings_status(), SettingsStatus::NotDownloading);
}

#[test]
fn toggle_details() {
    let (mut app, _) = StarryDex::init(false);
    app.update(Message::TogglePokemonDetails(true));
    assert!(app.wants_pokemon_details());
    app.update(Message::TogglePokemonDetails(false));
    assert!(!app.wants_pokemon_details());
}

#[test]
fn landing_grid_rows_of_three() {
    let app = loaded();
    match app.landing() {
        LandingView::Loaded { search, rows } => {
            assert_eq!(search, "");
            assert_eq!(rows.len(), 2);
            assert_eq!(rows[0].len(), 3);
            assert_eq!(rows[1].len(), 2);
            assert_eq!(rows[0][0].label, "Bulbasaur");
            assert_eq!(rows[0][0].name, "bulbasaur");
            assert!(matches!(rows[0][0].sprite, SpriteSource::File(ref p) if p == "/sprites/1.png"));
            assert!(matches!(rows[0][1].sprite, SpriteSource::Fallback));
            assert_eq!(rows[1][1].label, "Mr Mime");
            assert_eq!(rows[1][1].name, "mr-mime");
        }
        _ => panic!("expected the grid"),
    }
}

#[test]
fn landing_grid_after_search() {
    let mut app = loaded();
    app.update(Message::Search("m".to_string()));
    match app.landing() {
        LandingView::Loaded { search, rows } => {
            assert_eq!(search, "m");
            assert_eq!(rows.len(), 1);
            let labels: Vec<&str> = rows[0].iter().map(|t| t.label.as_str()).collect();
            assert_eq!(labels, vec!["Charmander", "Mr Mime"]);
        }
        _ => panic!("expected the grid"),
    }
}

#[test]
fn landing_grid_empty_and_full_rows() {
    let mut app = loaded();
    app.update(Message::Search("zzz".to_string()));
    match app.landing() {
        LandingView::Loaded { rows, .. } => assert!(rows.is_empty()),
        _ => panic!("expected the grid"),
    }
    app.update(Message::Search("saur".to_string()));
    match app.landing() {
        LandingView::Loaded { rows, .. } => {
            assert_eq!(rows.len(), 1);
            assert_eq!(rows[0].len(), 3);
        }
        _ => panic!("expected the grid"),
    }
}

#[test]
fn pokemon_page_without_selection() {
    let app = loaded();
    assert!(app.pokemon_page().is_none());
}

#[test]
fn pokemon_page_shows_details() {
    let (mut app, _) = StarryDex::init(false);
    let mut p = mon("bulbasaur", Some("/sprites/1.png"));
    p.encounter_info = Some(vec![LocationAreaEncounter {
        location_area: "pallet-town-area".to_string(),
        version_details: vec![
            VersionEncounterDetail {
                version: "red".to_string(),
                methods: vec!["walk".to_string(), "gift-egg".to_string()],
            },
            VersionEncounterDetail { version: "blue".to_string(), methods: vec![] },
        ],
    }]);
    app.update(Message::LoadedPokemon(p));
    let page = app.pokemon_page().unwrap();
    assert_eq!(page.title, "Bulbasaur");
    assert_eq!(page.weight, 69);
    assert_eq!(page.height, 7);
    assert_eq!(page.types, vec!["GRASS", "POISON"]);
    assert_eq!(page.stats.len(), 2);
    assert_eq!(page.stats[1].label, "Special Attack");
    assert_eq!(page.stats[1].value, 65);
    assert!(page.show_details_toggle);
    assert!(!page.details_checked);
    assert!(page.encounters.is_none());
    app.update(Message::TogglePokemonDetails(true));
    let page = app.pokemon_page().unwrap();
    assert!(page.details_checked);
    let enc = page.encounters.unwrap();
    assert_eq!(enc.len(), 1);
    assert_eq!(enc[0].location, "Pallet Town Area");
    assert_eq!(enc[0].lines, vec!["Red: Gift Egg", "Blue: "]);
}

#[test]
fn pokemon_page_without_encounters_has_no_toggle() {
    let (mut app, _) = StarryDex::init(false);
    let mut p = mon("ditto", None);
    p.encounter_info = Some(vec![]);
    app.update(Message::LoadedPokemon(p));
    app.update(Message::TogglePokemonDetails(true));
    let page = app.pokemon_page().unwrap();
    assert!(!page.show_details_toggle);
    assert!(page.encounters.is_none());
    assert!(matches!(page.sprite, SpriteSource::Fallback));
}

#[test]
fn titles_of_landing_page() {
    let (app, _) = StarryDex::init(false);
    let t = app.update_titles("StarryDex", "Pokémon");
    assert_eq!(t.window_title, "StarryDex — Pokémon");
    assert_eq!(t.header_title, "Pokémon");
}

#[test]
fn capitalize_hyphenated_names() {
    assert_eq!(capitalize_string("mr-mime"), "Mr Mime");
    assert_eq!(capitalize_string("bulbasaur"), "Bulbasaur");
    assert_eq!(capitalize_string(""), "");
    assert_eq!(capitalize_string("a--b"), "A  B");
    assert_eq!(capitalize_string("ßig"), "SSig");
}

#[test]
fn substring_search() {
    assert!(contains_str("charmander", "arm"));
    assert!(contains_str("charmander", ""));
    assert!(contains_str("", ""));
    assert!(!contains_str("char", "charm"));
    assert!(!contains_str("charmander", "Arm"));
    assert!(contains_str("flabébé", "bé"));
}
