//! Properties that hold across messages and views.
use vstd::prelude::*;

use crate::app::{
    Action, ContextPage, DexState, Message, PageStatus, SettingsStatus, all_indices, name_matches,
    initial_state, search_results, step,
};
use crate::pokemon::{CustomPokemon, VersionEncounterDetail};
use crate::text::{
    ascii_lower_char, ascii_lowercase, capitalized, capitalized_from, char_uppercase, is_substring,
    lower_text,
};
use crate::views::encounter_line;
use vstd::utf8::is_ascii_chars;

verus! {

/// The empty text occurs in every text.
pub proof fn lemma_empty_is_substring(s: Seq<char>)
    ensures
        is_substring(Seq::empty(), s),
{
    assert(s.subrange(0int, 0int + Seq::<char>::empty().len()) =~= Seq::<char>::empty());
}

/// Keeping what a predicate accepts everywhere keeps the whole sequence.
proof fn lemma_filter_keeps_all<A>(s: Seq<A>, p: spec_fn(A) -> bool)
    requires
        forall|i: int| 0 <= i < s.len() ==> p(#[trigger] s[i]),
    ensures
        s.filter(p) == s,
    decreases s.len(),
{
    reveal(Seq::filter);
    if s.len() > 0 {
        lemma_filter_keeps_all(s.drop_last(), p);
        assert(s.drop_last().push(s.last()) =~= s);
    }
}

/// The positions below `n` that `p` accepts, kept in order: each lies below
/// `n` and is accepted, they increase strictly, and every accepted position is
/// among them.
proof fn lemma_index_filter(n: nat, p: spec_fn(usize) -> bool)
    requires
        n <= usize::MAX + 1,
    ensures
        ({
            let r = all_indices(n).filter(p);
            &&& forall|k: int| 0 <= k < r.len() ==> #[trigger] r[k] < n && p(r[k])
            &&& forall|k1: int, k2: int| 0 <= k1 < k2 < r.len() ==> #[trigger] r[k1] < #[trigger] r[k2]
            &&& forall|i: int| 0 <= i < n && p(i as usize) ==> #[trigger] r.contains(i as usize)
        }),
    decreases n,
{
    reveal(Seq::filter);
    if n > 0 {
        let m = (n - 1) as nat;
        lemma_index_filter(m, p);
        assert(all_indices(n).drop_last() =~= all_indices(m));
        let prev = all_indices(m).filter(p);
        let r = all_indices(n).filter(p);
        assert(all_indices(n).last() == m as usize);
        if p(m as usize) {
            assert(r == prev.push(m as usize));
            assert forall|i: int| 0 <= i < n && p(i as usize) implies #[trigger] r.contains(i as usize) by {
                if i < m {
                    assert(prev.contains(i as usize));
                    let k = choose|k: int| 0 <= k < prev.len() && prev[k] == i as usize;
                    assert(r[k] == i as usize);
                } else {
                    assert(r[prev.len() as int] == i as usize);
                }
            }
        } else {
            assert(r == prev);
            assert forall|i: int| 0 <= i < n && p(i as usize) implies #[trigger] r.contains(i as usize) by {
                assert(i < m);
                assert(prev.contains(i as usize));
            }
        }
    }
}

/// What a search shows: positions in the list, in increasing list order, of
/// exactly the Pokémon whose lowercase name holds the lowercase search text.
pub proof fn lemma_search_results(list: Seq<CustomPokemon>, query: Seq<char>)
    requires
        list.len() <= usize::MAX,
    ensures
        ({
            let r = search_results(list, query);
            &&& forall|k: int|
                0 <= k < r.len() ==> #[trigger] r[k] < list.len() && name_matches(list[r[k] as int], query)
            &&& forall|k1: int, k2: int| 0 <= k1 < k2 < r.len() ==> #[trigger] r[k1] < #[trigger] r[k2]
            &&& forall|i: int|
                0 <= i < list.len() && name_matches(list[i], query) ==> #[trigger] r.contains(i as usize)
        }),
{
    let p = |i: usize| name_matches(list[i as int], query);
    lemma_index_filter(list.len(), p);
    let r = search_results(list, query);
    assert forall|i: int| 0 <= i < list.len() && name_matches(list[i], query) implies #[trigger] r.contains(i as usize) by {
        assert(p(i as usize));
    }
}

/// A search whose lowercase text is empty shows every Pokémon of the list, in
/// list order.
pub proof fn lemma_empty_query_shows_all(list: Seq<CustomPokemon>, query: Seq<char>)
    requires
        lower_text(query).len() == 0,
    ensures
        search_results(list, query) == all_indices(list.len()),
{
    assert(lower_text(query) =~= Seq::<char>::empty());
    let p = |i: usize| name_matches(list[i as int], query);
    assert forall|i: int| 0 <= i < all_indices(list.len()).len() implies p(
        #[trigger] all_indices(list.len())[i],
    ) by {
        lemma_empty_is_substring(lower_text(list[all_indices(list.len())[i] as int].pokemon.name@));
    }
    lemma_filter_keeps_all(all_indices(list.len()), p);
}

/// Every message keeps the state well formed: the Pokémon on show are
/// always Pokémon of the list.
pub proof fn lemma_step_keeps_wf(s: DexState, m: Message)
    requires
        s.wf(),
        m matches Message::LoadedPokemonList(list) ==> list@.len() <= usize::MAX,
    ensures
        step(s, m).0.wf(),
{
    match m {
        Message::Search(v) => {
            lemma_search_results(s.pokemon_list, v@);
        },
        Message::LoadedPokemonList(list) => {
            lemma_search_results(list@, s.search);
        },
        _ => {},
    }
}

/// Toggling the page that the drawer holds twice restores the state; toggling
/// another page shows that page in an open drawer. Either way the drawer's
/// title is set to the toggled page.
pub proof fn lemma_toggle_context_page(s: DexState, p: ContextPage)
    ensures
        s.context_page == p ==> step(
            step(s, Message::ToggleContextPage(p)).0,
            Message::ToggleContextPage(p),
        ).0 == s,
        s.context_page != p ==> step(s, Message::ToggleContextPage(p)).0 == (DexState {
            context_page: p,
            show_context: true,
            ..s
        }),
        s.context_page == p ==> step(s, Message::ToggleContextPage(p)).0 == (DexState {
            show_context: !s.show_context,
            ..s
        }),
        step(s, Message::ToggleContextPage(p)).1 == Action::SetContextTitle(p),
{
}

/// A loaded Pokémon becomes the selected one and its page is toggled in the
/// drawer: shown in an open drawer unless the drawer already held that page.
pub proof fn lemma_loaded_pokemon_selected(s: DexState, p: CustomPokemon)
    ensures
        ({
            let (t, a) = step(s, Message::LoadedPokemon(p));
            &&& t.selected_pokemon == Some(p)
            &&& t.context_page == ContextPage::PokemonPage
            &&& (s.context_page != ContextPage::PokemonPage ==> t.show_context)
            &&& (s.context_page == ContextPage::PokemonPage ==> t.show_context == !s.show_context)
            &&& a == Action::SetContextTitle(ContextPage::PokemonPage)
        }),
{
}

/// A search changes only the search text and what is shown, and searching
/// again for the same text changes nothing more.
pub proof fn lemma_search_idempotent(s: DexState, v: String)
    ensures
        ({
            let t = step(s, Message::Search(v)).0;
            &&& t == DexState { search: v@, filtered: t.filtered, ..s }
            &&& step(t, Message::Search(v)).0 == t
        }),
{
}

/// A newly loaded list is shown filtered by the search text that stands in
/// the search box.
pub proof fn lemma_loaded_list_is_searched(s: DexState, list: Vec<CustomPokemon>)
    ensures
        step(s, Message::LoadedPokemonList(list)).0.pokemon_list == list@,
        step(s, Message::LoadedPokemonList(list)).0.filtered == search_results(list@, s.search),
        step(s, Message::LoadedPokemonList(list)).0.page_status == PageStatus::Loaded,
{
}

/// The Pokémon on show are always the search result over the whole list: so
/// at start-up, and every message keeps it so.
pub proof fn lemma_filter_is_search_result(s: DexState, m: Message, first_run: bool)
    ensures
        initial_state(first_run).filtered == search_results(
            initial_state(first_run).pokemon_list,
            initial_state(first_run).search,
        ),
        s.filtered == search_results(s.pokemon_list, s.search) ==> step(s, m).0.filtered
            == search_results(step(s, m).0.pokemon_list, step(s, m).0.search),
{
    reveal(Seq::filter);
    assert(all_indices(0) =~= Seq::<usize>::empty());
}

/// Starting a download or a repair disables the buttons; when it finishes
/// they are enabled again and the list is loaded anew.
pub proof fn lemma_download_cycle(s: DexState)
    ensures
        ({
            let (d, a) = step(s, Message::DownloadAllImages);
            let (e, b) = step(d, Message::DownloadedAllImages);
            &&& d.settings_status == SettingsStatus::Downloading
            &&& a == Action::DownloadAllSprites
            &&& e.settings_status == SettingsStatus::NotDownloading
            &&& e.page_status == PageStatus::Loading
            &&& b == Action::LoadAllPokemon
        }),
        ({
            let (d, a) = step(s, Message::FixAllImages);
            let (e, b) = step(d, Message::AllImagesFixed);
            &&& d.settings_status == SettingsStatus::Downloading
            &&& a == Action::FixAllSprites
            &&& e.settings_status == SettingsStatus::NotDownloading
            &&& e.page_status == PageStatus::Loading
            &&& b == Action::LoadAllPokemon
        }),
{
}

/// Opening a link and asking for a Pokémon leave the state as it is and only
/// hand the work on.
pub proof fn lemma_requests_keep_state(s: DexState, text: String)
    ensures
        step(s, Message::LaunchUrl(text)) == (s, Action::OpenUrl(text)),
        step(s, Message::LoadPokemon(text)) == (s, Action::LoadPokemon(text)),
{
}

/// A text made of ASCII characters none of which is an upper-case letter.
pub open spec fn is_lower_ascii(s: Seq<char>) -> bool {
    &&& is_ascii_chars(s)
    &&& forall|k: int| 0 <= k < s.len() ==> !('A' <= #[trigger] s[k] <= 'Z')
}

/// Lowering a text already in lower case changes nothing.
proof fn lemma_lower_ascii_fixed(s: Seq<char>)
    requires
        is_lower_ascii(s),
    ensures
        lower_text(s) == s,
{
    assert(ascii_lowercase(s) =~= s);
}

/// A search for text that occurs in a Pokémon's lower-case ASCII name (such as
/// `mime` in `mr-mime`) always shows that Pokémon.
pub proof fn lemma_search_finds_lowercase_text(list: Seq<CustomPokemon>, query: Seq<char>, i: int)
    requires
        list.len() <= usize::MAX,
        0 <= i < list.len(),
        is_lower_ascii(list[i].pokemon.name@),
        is_substring(query, list[i].pokemon.name@),
    ensures
        name_matches(list[i], query),
        search_results(list, query).contains(i as usize),
{
    let name = list[i].pokemon.name@;
    let j = choose|j: int|
        0 <= j <= name.len() - query.len() && #[trigger] name.subrange(j, j + query.len()) == query;
    assert forall|k: int| 0 <= k < query.len() implies '\0' <= #[trigger] query[k] <= '\u{7f}'
        && !('A' <= query[k] <= 'Z') by {
        assert(query[k] == name.subrange(j, j + query.len())[k]);
        assert(name[j + k] == query[k]);
    }
    lemma_lower_ascii_fixed(name);
    lemma_lower_ascii_fixed(query);
    lemma_search_results(list, query);
}

/// Lowering an ASCII text twice is lowering it once, and keeps it ASCII.
proof fn lemma_ascii_lowercase_idempotent(s: Seq<char>)
    requires
        is_ascii_chars(s),
    ensures
        is_ascii_chars(ascii_lowercase(s)),
        ascii_lowercase(ascii_lowercase(s)) == ascii_lowercase(s),
{
    assert(ascii_lowercase(ascii_lowercase(s)) =~= ascii_lowercase(s));
}

/// Searching is blind to case: an ASCII search text shows the same Pokémon
/// as its lower-case form (`MIME` as `mime`).
pub proof fn lemma_search_ignores_case(list: Seq<CustomPokemon>, query: Seq<char>)
    requires
        is_ascii_chars(query),
    ensures
        search_results(list, query) == search_results(list, ascii_lowercase(query)),
{
    lemma_ascii_lowercase_idempotent(query);
    assert(lower_text(query) == lower_text(ascii_lowercase(query)));
    let p1 = |i: usize| name_matches(list[i as int], query);
    let p2 = |i: usize| name_matches(list[i as int], ascii_lowercase(query));
    assert(p1 =~= p2);
}

/// An encounter line names the game version and, where encounters are
/// listed, the last encounter method given; the method part is empty only
/// where none is listed.
pub proof fn lemma_encounter_line_names_method(d: VersionEncounterDetail)
    ensures
        d.methods@.len() > 0 ==> encounter_line(d) == capitalized(d.version@) + ": "@
            + capitalized(d.methods@.last()@),
        d.methods@.len() == 1 ==> encounter_line(d) == capitalized(d.version@) + ": "@
            + capitalized(d.methods@[0]@),
        d.methods@.len() == 0 ==> encounter_line(d) == capitalized(d.version@) + ": "@,
{
    if d.methods@.len() == 0 {
        assert(capitalized(d.version@) + ": "@ + Seq::<char>::empty() =~= capitalized(d.version@)
            + ": "@);
    }
}

/// A text without `-`.
pub open spec fn no_hyphen(s: Seq<char>) -> bool {
    forall|k: int| 0 <= k < s.len() ==> #[trigger] s[k] != '-'
}

/// Past a word's first character, a word keeps its characters.
pub proof fn lemma_capitalized_rest_unchanged(w: Seq<char>)
    requires
        no_hyphen(w),
    ensures
        capitalized_from(w, false) == w,
    decreases w.len(),
{
    if w.len() > 0 {
        assert(no_hyphen(w.drop_first()) && w[0] != '-') by {
            assert(w[0] != '-');
            assert forall|k: int| 0 <= k < w.drop_first().len() implies #[trigger] w.drop_first()[k] != '-' by {
                assert(w.drop_first()[k] == w[k + 1]);
            }
        }
        lemma_capitalized_rest_unchanged(w.drop_first());
        assert(seq![w[0]] + w.drop_first() =~= w);
    }
}

/// A single word, of any length, shows with its first character upper-cased
/// and the rest as it is.
pub proof fn lemma_capitalized_word(w: Seq<char>)
    requires
        w.len() > 0,
        no_hyphen(w),
    ensures
        capitalized(w) == char_uppercase(w[0]) + w.drop_first(),
{
    assert(w[0] != '-');
    assert(no_hyphen(w.drop_first())) by {
        assert forall|k: int| 0 <= k < w.drop_first().len() implies #[trigger] w.drop_first()[k] != '-' by {
            assert(w.drop_first()[k] == w[k + 1]);
        }
    }
    lemma_capitalized_rest_unchanged(w.drop_first());
}

/// Display names split at each `-`: the part before it and the part after it
/// are shown independently, joined by a space, whatever their lengths.
proof fn lemma_capitalized_from_hyphen(a: Seq<char>, b: Seq<char>, st: bool)
    requires
        no_hyphen(a),
    ensures
        capitalized_from(a + seq!['-'] + b, st) == capitalized_from(a, st) + seq![' ']
            + capitalized(b),
    decreases a.len(),
{
    let t = a + seq!['-'] + b;
    if a.len() == 0 {
        assert(t[0] == '-');
        assert(t.drop_first() =~= b);
        assert(capitalized_from(a, st) =~= Seq::<char>::empty());
        assert(seq![' '] + capitalized(b) =~= capitalized_from(a, st) + seq![' '] + capitalized(b));
    } else {
        assert(a[0] != '-');
        assert(t[0] == a[0]);
        assert(t.drop_first() =~= a.drop_first() + seq!['-'] + b);
        assert(no_hyphen(a.drop_first())) by {
            assert forall|k: int| 0 <= k < a.drop_first().len() implies #[trigger] a.drop_first()[k] != '-' by {
                assert(a.drop_first()[k] == a[k + 1]);
            }
        }
        lemma_capitalized_from_hyphen(a.drop_first(), b, false);
        if st {
            assert(char_uppercase(a[0]) + (capitalized_from(a.drop_first(), false) + seq![' ']
                + capitalized(b)) =~= char_uppercase(a[0]) + capitalized_from(a.drop_first(), false)
                + seq![' '] + capitalized(b));
        } else {
            assert(seq![a[0]] + (capitalized_from(a.drop_first(), false) + seq![' '] + capitalized(b))
                =~= seq![a[0]] + capitalized_from(a.drop_first(), false) + seq![' '] + capitalized(
                b,
            ));
        }
    }
}

/// A hyphenated name shows as its first word's display form, a space, and the
/// display form of the rest: `kanto-route-2` as `Kanto` + ` ` + `Route 2`.
pub proof fn lemma_capitalized_hyphen(a: Seq<char>, b: Seq<char>)
    requires
        no_hyphen(a),
    ensures
        capitalized(a + seq!['-'] + b) == capitalized(a) + seq![' '] + capitalized(b),
{
    lemma_capitalized_from_hyphen(a, b, true);
}

/// At start-up no download runs (the buttons work), the drawer is closed, no
/// Pokémon is loaded, shown or selected, and the search box is empty; only a
/// first run waits for the sprite download.
pub proof fn lemma_initial_state(first_run: bool)
    ensures
        initial_state(first_run).settings_status == SettingsStatus::NotDownloading,
        !initial_state(first_run).show_context,
        initial_state(first_run).pokemon_list.len() == 0,
        initial_state(first_run).filtered.len() == 0,
        initial_state(first_run).selected_pokemon is None,
        initial_state(first_run).search.len() == 0,
        !initial_state(first_run).wants_pokemon_details,
        (initial_state(first_run).page_status == PageStatus::FirstRun) == first_run,
        initial_state(first_run).wf(),
{
}

} // verus!
