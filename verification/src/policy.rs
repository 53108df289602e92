//! The translation policy: which translation style a Pokémon's attributes
//! call for.

use vstd::prelude::*;

use crate::funtranslation::TranslationMethod;
use crate::pokeapi::Pokemon;
use crate::strings::str_eq;

verus! {

/// The style a Pokémon's attributes select: Yoda for legendary Pokémon and
/// cave dwellers, Shakespeare for every other Pokémon.
pub open spec fn spec_select_method(pokemon: Pokemon) -> TranslationMethod {
    if pokemon.is_legendary || pokemon.habitat@ == "cave"@ {
        TranslationMethod::Yoda
    } else {
        TranslationMethod::Shakespeare
    }
}

/// Selects the translation style from the Pokémon's attributes alone.
pub fn select_method(pokemon: &Pokemon) -> (r: TranslationMethod)
    ensures
        r == spec_select_method(*pokemon),
{
    if pokemon.is_legendary || str_eq(pokemon.habitat.as_str(), "cave") {
        TranslationMethod::Yoda
    } else {
        TranslationMethod::Shakespeare
    }
}

/// The selection rule in both directions: Yoda exactly for legendary or
/// cave-dwelling Pokémon, Shakespeare exactly for the rest.
pub proof fn lemma_select_method_rule(pokemon: Pokemon)
    ensures
        (pokemon.is_legendary || pokemon.habitat@ == "cave"@) <==> spec_select_method(pokemon)
            is Yoda,
        !(pokemon.is_legendary || pokemon.habitat@ == "cave"@) <==> spec_select_method(pokemon)
            is Shakespeare,
{
}

/// The selection depends on the legendary flag and the habitat alone: two
/// Pokémon that agree on those select the same style, whatever their names
/// and descriptions.
pub proof fn lemma_select_method_ignores_text(a: Pokemon, b: Pokemon)
    requires
        a.is_legendary == b.is_legendary,
        a.habitat@ == b.habitat@,
    ensures
        spec_select_method(a) == spec_select_method(b),
{
}

} // verus!
