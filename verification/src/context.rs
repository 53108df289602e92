//! The pair of upstream clients that one request works with.

use vstd::prelude::*;

use crate::funtranslation::FunTranslationTrait;
use crate::pokeapi::PokeApiTrait;

verus! {

/// Holds the species client and the translation client of one service
/// instance.
pub struct Context<P: PokeApiTrait, F: FunTranslationTrait> {
    pub pokeapi: P,
    pub fun_translation: F,
}

impl<P: PokeApiTrait, F: FunTranslationTrait> Context<P, F> {
    pub fn new(pokeapi: P, fun_translation: F) -> (r: Self)
        ensures
            r.pokeapi == pokeapi,
            r.fun_translation == fun_translation,
    {
        Context { pokeapi, fun_translation }
    }
}

} // verus!
