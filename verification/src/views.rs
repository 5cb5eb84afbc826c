//! What each page shows, as plain values that the window toolkit lays out.
use vstd::prelude::*;

use crate::app::{Page, PageStatus, SettingsStatus, StarryDex};
use crate::pokemon::{
    CustomPokemon, LocationAreaEncounter, PokemonStat, PokemonType, VersionEncounterDetail,
};
use crate::text::{capitalize_string, capitalized, to_uppercase, uppercase};

verus! {

/// How many Pokémon the landing grid shows in one row.
pub const POKEMON_PER_ROW: usize = 3;

/// Where a Pokémon's picture comes from.
#[derive(Clone, Debug)]
pub enum SpriteSource {
    /// The downloaded sprite at this path.
    File(String),
    /// The built-in fallback picture.
    Fallback,
}

/// One Pokémon in the landing grid.
#[derive(Clone, Debug)]
pub struct PokemonTile {
    /// The display name.
    pub label: String,
    /// The name to load the Pokémon by when the tile is pressed.
    pub name: String,
    /// Its picture.
    pub sprite: SpriteSource,
}

/// What the landing page shows.
#[derive(Clone, Debug)]
pub enum LandingView {
    /// The sprites are being downloaded on the first start.
    FirstRun,
    /// The list is being loaded.
    Loading,
    /// The search box and the grid of matching Pokémon, row by row.
    Loaded { search: String, rows: Vec<Vec<PokemonTile>> },
}

/// What the settings page shows.
#[derive(Clone, Copy, Debug)]
pub struct SettingsView {
    /// Whether the download and repair buttons can be pressed.
    pub downloads_enabled: bool,
    /// Whether the notice that a download runs is shown.
    pub downloading_notice: bool,
}

/// One line of the stats table.
#[derive(Clone, Debug)]
pub struct StatRow {
    /// The stat's display name.
    pub label: String,
    /// Its base value.
    pub value: i64,
}

/// The encounters in one location area.
#[derive(Clone, Debug)]
pub struct EncounterEntry {
    /// The area's display name.
    pub location: String,
    /// One line per game version: `Version: Method`.
    pub lines: Vec<String>,
}

/// What the Pokémon page shows of a Pokémon.
#[derive(Clone, Debug)]
pub struct PokemonPageView {
    /// The display name.
    pub title: String,
    /// Its picture.
    pub sprite: SpriteSource,
    /// Weight in hectograms.
    pub weight: i64,
    /// Height in decimetres.
    pub height: i64,
    /// The types, upper-cased.
    pub types: Vec<String>,
    /// The stats table.
    pub stats: Vec<StatRow>,
    /// Whether the "show encounter details" box is shown.
    pub show_details_toggle: bool,
    /// Whether that box is ticked.
    pub details_checked: bool,
    /// The encounter details, where they are shown.
    pub encounters: Option<Vec<EncounterEntry>>,
}

/// The window's title and the header bar's title.
#[derive(Clone, Debug)]
pub struct PageTitles {
    pub window_title: String,
    pub header_title: String,
}

/// The picture source `s` shows the sprite `path`, or the fallback where
/// there is none.
pub open spec fn sprite_shows(s: SpriteSource, path: Option<String>) -> bool {
    match (s, path) {
        (SpriteSource::File(a), Some(b)) => a@ == b@,
        (SpriteSource::Fallback, None) => true,
        _ => false,
    }
}

/// The tile `t` shows the Pokémon `p`.
pub open spec fn tile_shows(t: PokemonTile, p: CustomPokemon) -> bool {
    &&& t.label@ == capitalized(p.pokemon.name@)
    &&& t.name@ == p.pokemon.name@
    &&& sprite_shows(t.sprite, p.sprite_path)
}

/// The rows `rows` lay out the Pokémon at the positions `shown` of `list`
/// in order, `POKEMON_PER_ROW` to a row, the last row holding the rest.
pub open spec fn rows_show(
    rows: Seq<Vec<PokemonTile>>,
    list: Seq<CustomPokemon>,
    shown: Seq<usize>,
) -> bool {
    let n = shown.len();
    let w = POKEMON_PER_ROW as int;
    &&& w * rows.len() >= n
    &&& rows.len() > 0 ==> w * (rows.len() - 1) < n
    &&& forall|r: int|
        0 <= r < rows.len() ==> #[trigger] rows[r]@.len() == (if n - w * r >= w {
            w
        } else {
            n - w * r
        })
    &&& forall|r: int, c: int|
        0 <= r < rows.len() && 0 <= c < rows[r]@.len() ==> tile_shows(
            #[trigger] rows[r]@[c],
            list[shown[w * r + c] as int],
        )
}

/// The encounter line of one game version: its display name, a colon and
/// the display name of the last encounter method given (nothing where none is).
pub open spec fn encounter_line(d: VersionEncounterDetail) -> Seq<char> {
    capitalized(d.version@) + ": "@ + (if d.methods@.len() == 0 {
        Seq::<char>::empty()
    } else {
        capitalized(d.methods@.last()@)
    })
}

/// The entry `e` shows the encounters `a`.
pub open spec fn entry_shows(e: EncounterEntry, a: LocationAreaEncounter) -> bool {
    &&& e.location@ == capitalized(a.location_area@)
    &&& e.lines@.len() == a.version_details@.len()
    &&& forall|j: int|
        0 <= j < e.lines@.len() ==> #[trigger] e.lines@[j]@ == encounter_line(
            a.version_details@[j],
        )
}

/// The entries show the encounters, one entry per location area, in order.
pub open spec fn entries_show(es: Seq<EncounterEntry>, info: Seq<LocationAreaEncounter>) -> bool {
    &&& es.len() == info.len()
    &&& forall|i: int| 0 <= i < es.len() ==> entry_shows(#[trigger] es[i], info[i])
}

/// The type names, upper-cased, in order.
pub open spec fn types_show(ts: Seq<String>, types: Seq<PokemonType>) -> bool {
    &&& ts.len() == types.len()
    &&& forall|i: int| 0 <= i < ts.len() ==> #[trigger] ts[i]@ == uppercase(types[i].name@)
}

/// The stats table lists the stats in order, by display name and base value.
pub open spec fn stats_show(rows: Seq<StatRow>, stats: Seq<PokemonStat>) -> bool {
    &&& rows.len() == stats.len()
    &&& forall|i: int|
        0 <= i < rows.len() ==> (#[trigger] rows[i]).label@ == capitalized(stats[i].name@)
            && rows[i].value == stats[i].base_stat
}

/// The Pokémon has at least one known encounter.
pub open spec fn has_encounters(p: CustomPokemon) -> bool {
    match p.encounter_info {
        Some(info) => info@.len() > 0,
        None => false,
    }
}

/// The page `v` shows the Pokémon `p`, with the encounter details wanted or not.
pub open spec fn page_shows(v: PokemonPageView, p: CustomPokemon, wants_details: bool) -> bool {
    &&& v.title@ == capitalized(p.pokemon.name@)
    &&& sprite_shows(v.sprite, p.sprite_path)
    &&& v.weight == p.pokemon.weight
    &&& v.height == p.pokemon.height
    &&& types_show(v.types@, p.pokemon.types@)
    &&& stats_show(v.stats@, p.pokemon.stats@)
    &&& v.show_details_toggle == has_encounters(p)
    &&& v.details_checked == wants_details
    &&& (if has_encounters(p) && wants_details {
        v.encounters matches Some(es) && entries_show(es@, p.encounter_info->0@)
    } else {
        v.encounters is None
    })
}

/// The picture source for a sprite path.
fn sprite_of(path: &Option<String>) -> (s: SpriteSource)
    ensures
        sprite_shows(s, *path),
{
    match path {
        Some(p) => SpriteSource::File(p.clone()),
        None => SpriteSource::Fallback,
    }
}

/// The grid tile of a Pokémon.
fn tile_of(p: &CustomPokemon) -> (t: PokemonTile)
    ensures
        tile_shows(t, *p),
{
    PokemonTile {
        label: capitalize_string(p.pokemon.name.as_str()),
        name: p.pokemon.name.clone(),
        sprite: sprite_of(&p.sprite_path),
    }
}

impl StarryDex {
    /// The landing page: a notice while sprites download or the list loads,
    /// then the search box and the grid of the Pokémon that match the search.
    pub fn landing(&self) -> (v: LandingView)
        ensures
            match self@.page_status {
                PageStatus::FirstRun => v is FirstRun,
                PageStatus::Loading => v is Loading,
                PageStatus::Loaded => v matches LandingView::Loaded { search, rows } && search@
                    == self@.search && rows_show(rows@, self@.pokemon_list, self@.filtered),
            },
    {
        match self.page_status() {
            PageStatus::FirstRun => LandingView::FirstRun,
            PageStatus::Loading => LandingView::Loading,
            PageStatus::Loaded => {
                let list = self.pokemon_list();
                let shown = self.filtered_pokemon_list();
                let n = shown.len();
                let mut rows: Vec<Vec<PokemonTile>> = Vec::new();
                let mut row: Vec<PokemonTile> = Vec::new();
                let mut k: usize = 0;
                while k < n
                    invariant
                        n == shown@.len(),
                        self@.wf(),
                        list@ == self@.pokemon_list,
                        shown@ == self@.filtered,
                        k <= n,
                        k == 3 * rows@.len() + row@.len(),
                        row@.len() < 3,
                        forall|r: int|
                            0 <= r < rows@.len() ==> #[trigger] rows@[r]@.len() == 3,
                        forall|r: int, c: int|
                            0 <= r < rows@.len() && 0 <= c < rows@[r]@.len() ==> tile_shows(
                                #[trigger] rows@[r]@[c],
                                list@[shown@[3 * r + c] as int],
                            ),
                        forall|c: int|
                            0 <= c < row@.len() ==> tile_shows(
                                #[trigger] row@[c],
                                list@[shown@[3 * rows@.len() + c] as int],
                            ),
                    decreases n - k,
                {
                    let t = tile_of(&list[shown[k]]);
                    row.push(t);
                    if row.len() == POKEMON_PER_ROW {
                        rows.push(row);
                        row = Vec::new();
                    }
                    k = k + 1;
                }
                if row.len() > 0 {
                    rows.push(row);
                }
                LandingView::Loaded { search: String::from_str(self.search()), rows }
            },
        }
    }

    /// The settings page: the download and repair buttons work while no
    /// download runs; while one runs, a notice says so.
    pub fn settings(&self) -> (v: SettingsView)
        ensures
            v.downloads_enabled == (self@.settings_status == SettingsStatus::NotDownloading),
            v.downloading_notice == (self@.settings_status == SettingsStatus::Downloading),
    {
        match self.settings_status() {
            SettingsStatus::NotDownloading => SettingsView {
                downloads_enabled: true,
                downloading_notice: false,
            },
            SettingsStatus::Downloading => SettingsView {
                downloads_enabled: false,
                downloading_notice: true,
            },
        }
    }

    /// The Pokémon page of the selected Pokémon, or `None` where none is
    /// selected (the page then shows an error).
    pub fn pokemon_page(&self) -> (v: Option<PokemonPageView>)
        ensures
            match self@.selected_pokemon {
                Some(p) => v matches Some(page) && page_shows(
                    page,
                    p,
                    self@.wants_pokemon_details,
                ),
                None => v is None,
            },
    {
        match self.selected_pokemon() {
            None => None,
            Some(custom_pokemon) => {
                let wants = self.wants_pokemon_details();
                let has = match &custom_pokemon.encounter_info {
                    Some(info) => info.len() > 0,
                    None => false,
                };
                let encounters = match &custom_pokemon.encounter_info {
                    Some(info) => {
                        if has && wants {
                            Some(self.parse_encounter_info(info))
                        } else {
                            None
                        }
                    },
                    None => None,
                };
                Some(
                    PokemonPageView {
                        title: capitalize_string(custom_pokemon.pokemon.name.as_str()),
                        sprite: sprite_of(&custom_pokemon.sprite_path),
                        weight: custom_pokemon.pokemon.weight,
                        height: custom_pokemon.pokemon.height,
                        types: self.parse_pokemon_types(&custom_pokemon.pokemon.types),
                        stats: self.parse_pokemon_stats(&custom_pokemon.pokemon.stats),
                        show_details_toggle: has,
                        details_checked: wants,
                        encounters,
                    },
                )
            },
        }
    }

    /// The header and window titles of the current page, given the localised
    /// application title and page title.
    pub fn update_titles(&self, app_title: &str, page_title: &str) -> (t: PageTitles)
        ensures
            self@.current_page == Page::LandingPage ==> t.window_title@ == app_title@ + " — "@
                + page_title@ && t.header_title@ == page_title@,
    {
        match self.current_page() {
            Page::LandingPage => {
                let window_title = String::from_str(app_title).concat(" — ").concat(page_title);
                PageTitles { window_title, header_title: String::from_str(page_title) }
            },
        }
    }

    /// The stats table: each stat's display name and base value, in order.
    pub fn parse_pokemon_stats(&self, stats: &Vec<PokemonStat>) -> (r: Vec<StatRow>)
        ensures
            stats_show(r@, stats@),
    {
        let mut r: Vec<StatRow> = Vec::new();
        let mut i: usize = 0;
        while i < stats.len()
            invariant
                i <= stats@.len(),
                r@.len() == i,
                forall|j: int|
                    0 <= j < i ==> (#[trigger] r@[j]).label@ == capitalized(stats@[j].name@)
                        && r@[j].value == stats@[j].base_stat,
            decreases stats@.len() - i,
        {
            let row = StatRow {
                label: capitalize_string(stats[i].name.as_str()),
                value: stats[i].base_stat,
            };
            r.push(row);
            i = i + 1;
        }
        r
    }

    /// The type names, upper-cased, in order.
    pub fn parse_pokemon_types(&self, types: &Vec<PokemonType>) -> (r: Vec<String>)
        ensures
            types_show(r@, types@),
    {
        let mut r: Vec<String> = Vec::new();
        let mut i: usize = 0;
        while i < types.len()
            invariant
                i <= types@.len(),
                r@.len() == i,
                forall|j: int| 0 <= j < i ==> #[trigger] r@[j]@ == uppercase(types@[j].name@),
            decreases types@.len() - i,
        {
            r.push(to_uppercase(types[i].name.as_str()));
            i = i + 1;
        }
        r
    }

    /// The encounter details: for each location area its display name and
    /// one `Version: Method` line per game version.
    pub fn parse_encounter_info(&self, encounter_info: &Vec<LocationAreaEncounter>) -> (r: Vec<
        EncounterEntry,
    >)
        ensures
            entries_show(r@, encounter_info@),
    {
        let mut r: Vec<EncounterEntry> = Vec::new();
        let mut i: usize = 0;
        while i < encounter_info.len()
            invariant
                i <= encounter_info@.len(),
                r@.len() == i,
                forall|j: int| 0 <= j < i ==> entry_shows(#[trigger] r@[j], encounter_info@[j]),
            decreases encounter_info@.len() - i,
        {
            r.push(encounter_entry(&encounter_info[i]));
            i = i + 1;
        }
        r
    }
}

/// The encounter line of one game version.
fn encounter_line_of(d: &VersionEncounterDetail) -> (s: String)
    ensures
        s@ == encounter_line(*d),
{
    let game_name = capitalize_string(d.version.as_str());
    let n = d.methods.len();
    let method_name = if n == 0 {
        String::new()
    } else {
        capitalize_string(d.methods[n - 1].as_str())
    };
    game_name.concat(": ").concat(method_name.as_str())
}

/// The entry of one location area.
fn encounter_entry(a: &LocationAreaEncounter) -> (e: EncounterEntry)
    ensures
        entry_shows(e, *a),
{
    let mut lines: Vec<String> = Vec::new();
    let mut j: usize = 0;
    while j < a.version_details.len()
        invariant
            j <= a.version_details@.len(),
            lines@.len() == j,
            forall|k: int|
                0 <= k < j ==> #[trigger] lines@[k]@ == encounter_line(a.version_details@[k]),
        decreases a.version_details@.len() - j,
    {
        lines.push(encounter_line_of(&a.version_details[j]));
        j = j + 1;
    }
    EncounterEntry { location: capitalize_string(a.location_area.as_str()), lines }
}

} // verus!
