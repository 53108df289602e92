//! The two public operations of the service, composed from the species
//! client, the translation policy and the translation client, together with
//! the fallback rule for failed translations and the mapping of errors to
//! response statuses.

use vstd::prelude::*;

use crate::context::Context;
use crate::funtranslation::{FunTranslationTrait, TranslationError};
use crate::pokeapi::{PokeApiTrait, Pokemon, PokemonError};
use crate::policy::select_method;

verus! {

/// The service's error taxonomy: a species-lookup failure or a translation
/// failure. Translation failures are documented for completeness; the
/// fallback rule keeps them from ever reaching a caller.
#[derive(Debug)]
pub enum APIError {
    PokemonError(PokemonError),
    TranslationError(TranslationError),
}

/// The species client's verdict, carried into the service's error taxonomy:
/// a fetched record is passed through verbatim, a species error is wrapped
/// and nothing else is changed.
pub fn resolve_species_result(species: Result<Pokemon, PokemonError>) -> (r: Result<
    Pokemon,
    APIError,
>)
    ensures
        species matches Ok(p) ==> (r matches Ok(q) && q == p),
        species matches Err(e) ==> (r matches Err(a) && a == APIError::PokemonError(e)),
{
    match species {
        Ok(pokemon) => Ok(pokemon),
        Err(e) => Err(APIError::PokemonError(e)),
    }
}

/// Looks a Pokémon up by name. The species client's verdict is passed on
/// unchanged: an error can only be a species error.
pub fn pokemon_information<P: PokeApiTrait, F: FunTranslationTrait>(
    context: Context<P, F>,
    name: String,
) -> (r: Result<Pokemon, APIError>)
    ensures
        r matches Err(e) ==> e is PokemonError,
{
    resolve_species_result(context.pokeapi.get_information(name.as_str()))
}

/// The fallback rule as a value: a successful translation replaces the
/// description, a failed one leaves the record as it was.
pub open spec fn spec_apply_translation(
    pokemon: Pokemon,
    translated: Result<String, TranslationError>,
) -> Pokemon {
    match translated {
        Ok(text) => Pokemon { description: text, ..pokemon },
        Err(_) => pokemon,
    }
}

/// A failed translation is swallowed whole: the record survives unchanged,
/// whatever the failure was.
pub proof fn lemma_fallback_keeps_record(pokemon: Pokemon, error: TranslationError)
    ensures
        spec_apply_translation(pokemon, Err(error)) == pokemon,
{
}

/// A successful translation replaces the description and touches nothing
/// else.
pub proof fn lemma_translation_replaces_description(pokemon: Pokemon, text: String)
    ensures
        spec_apply_translation(pokemon, Ok(text)) == (Pokemon { description: text, ..pokemon }),
{
}

/// Applies the fallback rule: a successful translation replaces the
/// description, a failed one is swallowed and the original description is
/// kept. Name, habitat and legendary status are never touched.
pub fn apply_translation(pokemon: Pokemon, translated: Result<String, TranslationError>) -> (r:
    Pokemon)
    ensures
        r == spec_apply_translation(pokemon, translated),
{
    match translated {
        Ok(text) => Pokemon {
            name: pokemon.name,
            description: text,
            habitat: pokemon.habitat,
            is_legendary: pokemon.is_legendary,
        },
        Err(_) => pokemon,
    }
}

/// Looks a Pokémon up by name and rewrites its description in the style its
/// attributes select. A species-lookup failure is fatal and is the only
/// failure the operation can report; a translation failure is swallowed by
/// the fallback rule, so the operation still succeeds.
pub fn pokemon_translated<P: PokeApiTrait, F: FunTranslationTrait>(
    context: Context<P, F>,
    name: String,
) -> (r: Result<Pokemon, APIError>)
    ensures
        r matches Err(e) ==> e is PokemonError,
{
    let pokemon = match resolve_species_result(context.pokeapi.get_information(name.as_str())) {
        Ok(pokemon) => pokemon,
        Err(e) => {
            return Err(e);
        },
    };
    let method = select_method(&pokemon);
    let translated = context.fun_translation.translate(method, pokemon.description.as_str());
    Ok(apply_translation(pokemon, translated))
}

/// The response status and message a service error maps to: a missing
/// Pokémon is reported as not found, every other error as an internal
/// failure.
pub fn error_status_and_message(error: &APIError) -> (r: (u16, String))
    ensures
        error matches APIError::PokemonError(PokemonError::PokemonNotFound) ==> r.0 == 404
            && r.1@ == "POKEMON_NOT_FOUND"@,
        !(error matches APIError::PokemonError(PokemonError::PokemonNotFound)) ==> r.0 == 500
            && r.1@ == "INTERNAL_SERVER_ERROR"@,
{
    match error {
        APIError::PokemonError(PokemonError::PokemonNotFound) => (
            404,
            "POKEMON_NOT_FOUND".to_owned(),
        ),
        _ => (500, "INTERNAL_SERVER_ERROR".to_owned()),
    }
}

} // verus!
