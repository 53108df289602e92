//! Species records and their reduction to a `Pokemon` value: flavor-text
//! selection by language, text normalization, request-path construction and
//! the classification of upstream response statuses.

use vstd::prelude::*;
use vstd::string::StringExecFns;

use crate::strings::{normalize_text, normalized, str_eq};

verus! {

/// A language tag attached to a flavor-text entry.
pub struct Language {
    pub name: String,
}

/// One localized descriptive sentence from a species record.
pub struct FlavorText {
    pub language: Language,
    pub flavor_text: String,
}

/// The habitat field of a species record.
pub struct Habitat {
    pub name: String,
}

/// The part of an upstream species record that the service reads.
pub struct PokemonSpecies {
    pub is_legendary: bool,
    pub flavor_text_entries: Vec<FlavorText>,
    pub habitat: Habitat,
}

/// The record served to callers of the service.
pub struct Pokemon {
    pub name: String,
    pub description: String,
    pub habitat: String,
    pub is_legendary: bool,
}

impl Pokemon {
    pub fn new(name: String, description: String, habitat: String, is_legendary: bool) -> (r:
        Pokemon)
        ensures
            r.name == name,
            r.description == description,
            r.habitat == habitat,
            r.is_legendary == is_legendary,
    {
        Pokemon { name, description, habitat, is_legendary }
    }
}

/// Failures of a species lookup.
#[derive(Debug)]
pub enum PokemonError {
    PokemonNotFound,
    FailedToFetchPokemonSpecies,
    FailedToFindDescription(String),
}

/// The first flavor text whose language matches, in the order the entries
/// appear; `None` when no entry matches.
pub open spec fn first_description(entries: Seq<FlavorText>, language: Seq<char>) -> Option<
    Seq<char>,
>
    decreases entries.len(),
{
    if entries.len() == 0 {
        None
    } else if entries[0].language.name@ == language {
        Some(entries[0].flavor_text@)
    } else {
        first_description(entries.subrange(1, entries.len() as int), language)
    }
}

/// Selection is by position, not content: where entry `i` matches the
/// language and no earlier entry does, the selected text is that of entry
/// `i`.
pub proof fn lemma_first_description_is_first_match(
    entries: Seq<FlavorText>,
    language: Seq<char>,
    i: int,
)
    requires
        0 <= i < entries.len(),
        entries[i].language.name@ == language,
        forall|j: int| 0 <= j < i ==> entries[j].language.name@ != language,
    ensures
        first_description(entries, language) == Some(entries[i].flavor_text@),
    decreases i,
{
    if i > 0 {
        let rest = entries.subrange(1, entries.len() as int);
        lemma_first_description_is_first_match(rest, language, i - 1);
    }
}

/// Where no entry matches the language, no text is selected.
pub proof fn lemma_first_description_none(entries: Seq<FlavorText>, language: Seq<char>)
    requires
        forall|j: int| 0 <= j < entries.len() ==> entries[j].language.name@ != language,
    ensures
        first_description(entries, language) is None,
    decreases entries.len(),
{
    if entries.len() > 0 {
        let rest = entries.subrange(1, entries.len() as int);
        lemma_first_description_none(rest, language);
    }
}

/// Returns the first flavor text entry that matches the language, with line
/// feeds and form feeds replaced by spaces; fails when no entry matches.
pub fn get_description(entries: &Vec<FlavorText>, language: &str) -> (r: Result<
    String,
    PokemonError,
>)
    ensures
        match first_description(entries@, language@) {
            Some(t) => r matches Ok(d) && d@ == normalized(t),
            None => r matches Err(e) && e matches PokemonError::FailedToFindDescription(l)
                && l@ == language@,
        },
{
    let len = entries.len();
    proof {
        assert(entries@.subrange(0, len as int) =~= entries@);
    }
    let mut i: usize = 0;
    while i < len
        invariant
            len == entries@.len(),
            i <= len,
            first_description(entries@, language@) == first_description(
                entries@.subrange(i as int, len as int),
                language@,
            ),
        decreases len - i,
    {
        let entry = &entries[i];
        if str_eq(entry.language.name.as_str(), language) {
            proof {
                assert(entries@.subrange(i as int, len as int)[0] == entries@[i as int]);
            }
            return Ok(normalize_text(entry.flavor_text.as_str()));
        }
        proof {
            let tail = entries@.subrange(i as int, len as int);
            assert(tail[0] == entries@[i as int]);
            assert(tail.subrange(1, tail.len() as int) =~= entries@.subrange(
                i + 1,
                len as int,
            ));
        }
        i += 1;
    }
    proof {
        assert(entries@.subrange(len as int, len as int) =~= Seq::<FlavorText>::empty());
    }
    Err(PokemonError::FailedToFindDescription(language.to_owned()))
}

/// Builds a `Pokemon` from a species record: the name is the caller's name
/// verbatim, the description is the normalized first English flavor text,
/// habitat and legendary status are copied from the record. Fails exactly
/// when the record holds no English flavor text.
pub fn pokemon_from_species(name: &str, species: PokemonSpecies) -> (r: Result<
    Pokemon,
    PokemonError,
>)
    ensures
        match first_description(species.flavor_text_entries@, "en"@) {
            Some(t) => r matches Ok(p) && p.name@ == name@ && p.description@ == normalized(t)
                && p.habitat == species.habitat.name && p.is_legendary == species.is_legendary,
            None => r matches Err(e) && e matches PokemonError::FailedToFindDescription(l)
                && l@ == "en"@,
        },
{
    match get_description(&species.flavor_text_entries, "en") {
        Ok(description) => Ok(
            Pokemon::new(name.to_owned(), description, species.habitat.name, species.is_legendary),
        ),
        Err(e) => Err(e),
    }
}

/// The request path of a species lookup: the fixed path prefix followed by
/// the name. An empty name is rejected as not found rather than sent
/// upstream.
pub fn species_request_path(name: &str) -> (r: Result<String, PokemonError>)
    ensures
        name@.len() == 0 ==> (r matches Err(e) && e is PokemonNotFound),
        name@.len() > 0 ==> (r matches Ok(p) && p@ == "pokemon-species/"@ + name@),
{
    if name.is_empty() {
        Err(PokemonError::PokemonNotFound)
    } else {
        Ok("pokemon-species/".to_owned().concat(name))
    }
}

/// Classifies an upstream species response status: a success status carries
/// no error, a not-found status reports the Pokémon as unknown, and every
/// other status is a fetch failure.
pub fn classify_species_status(status: u16) -> (r: Option<PokemonError>)
    ensures
        200 <= status < 300 ==> r is None,
        status == 404 ==> (r matches Some(e) && e is PokemonNotFound),
        !(200 <= status < 300) && status != 404 ==> (r matches Some(e)
            && e is FailedToFetchPokemonSpecies),
{
    if 200 <= status && status < 300 {
        None
    } else if status == 404 {
        Some(PokemonError::PokemonNotFound)
    } else {
        Some(PokemonError::FailedToFetchPokemonSpecies)
    }
}

/// A species lookup capability: the network-backed client and the test
/// doubles both stand behind this trait.
pub trait PokeApiTrait {
    fn get_information(&self, name: &str) -> Result<Pokemon, PokemonError>;
}

} // verus!
