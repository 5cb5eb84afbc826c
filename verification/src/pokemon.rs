//! The Pokémon data the application shows, as plain values.
use vstd::prelude::*;

verus! {

/// One base stat of a Pokémon, such as `special-attack`.
#[derive(Clone, Debug)]
pub struct PokemonStat {
    /// The stat's name.
    pub name: String,
    /// Its base value.
    pub base_stat: i64,
}

/// One elemental type of a Pokémon, such as `grass`.
#[derive(Clone, Debug)]
pub struct PokemonType {
    /// The type's name.
    pub name: String,
}

/// What the application reads of a Pokémon.
#[derive(Clone, Debug)]
pub struct Pokemon {
    /// The Pokémon's name, such as `bulbasaur`.
    pub name: String,
    /// Weight in hectograms.
    pub weight: i64,
    /// Height in decimetres.
    pub height: i64,
    /// Base stats, in the order given.
    pub stats: Vec<PokemonStat>,
    /// Types, in slot order.
    pub types: Vec<PokemonType>,
}

/// The encounters of one Pokémon in one game version.
#[derive(Clone, Debug)]
pub struct VersionEncounterDetail {
    /// The game version's name, such as `red`.
    pub version: String,
    /// The encounter methods, one per encounter, in the order given.
    pub methods: Vec<String>,
}

/// Where a Pokémon can be met, game by game.
#[derive(Clone, Debug)]
pub struct LocationAreaEncounter {
    /// The location area's name.
    pub location_area: String,
    /// The encounters in each game version.
    pub version_details: Vec<VersionEncounterDetail>,
}

/// A Pokémon together with its downloaded sprite and encounter data.
#[derive(Clone, Debug)]
pub struct CustomPokemon {
    /// The Pokémon itself.
    pub pokemon: Pokemon,
    /// Path of the sprite on disk, where one was downloaded.
    pub sprite_path: Option<String>,
    /// Where it can be encountered, where that was loaded.
    pub encounter_info: Option<Vec<LocationAreaEncounter>>,
}

} // verus!
