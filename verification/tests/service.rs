use std::cell::Cell;
use std::rc::Rc;

use pokespeak::funtranslation::{FunTranslationTrait, TranslationError, TranslationMethod};
use pokespeak::handlers::{
    apply_translation, error_status_and_message, pokemon_information, pokemon_translated, APIError,
};
use pokespeak::pokeapi::{
    pokemon_from_species, FlavorText, Habitat, Language, PokeApiTrait, Pokemon, PokemonError,
    PokemonSpecies,
};
use pokespeak::Context;

struct StubPokeApi {
    record: Option<(String, String, String, bool)>,
}

impl PokeApiTrait for StubPokeApi {
    fn get_information(&self, name: &str) -> Result<Pokemon, PokemonError> {
        match &self.record {
            Some((expected, description, habitat, is_legendary)) if expected == name => {
                Ok(Pokemon::new(
                    name.to_string(),
                    description.clone(),
                    habitat.clone(),
                    *is_legendary,
                ))
            }
            _ => Err(PokemonError::PokemonNotFound),
        }
    }
}

struct StubTranslation {
    expected_method: TranslationMethod,
    expected_text: String,
    reply: Result<String, TranslationError>,
    calls: Rc<Cell<usize>>,
}

impl FunTranslationTrait for StubTranslation {
    fn translate(&self, method: TranslationMethod, text: &str) -> Result<String, TranslationError> {
        self.calls.set(self.calls.get() + 1);
        assert_eq!(method, self.expected_method);
        assert_eq!(text, self.expected_text);
        match &self.reply {
            Ok(t) => Ok(t.clone()),
            Err(TranslationError::FailedToFetchTranslation) => {
                Err(TranslationError::FailedToFetchTranslation)
            }
            Err(TranslationError::UnsuccessfulTranslation) => {
                Err(TranslationError::UnsuccessfulTranslation)
            }
        }
    }
}

#[test]
fn test_pokemon_translated() {
    let mock_pokeapi = StubPokeApi {
        record: Some((
            "pikachu".to_string(),
            "pika pika".to_string(),
            "forest".to_string(),
            true,
        )),
    };
    let calls = Rc::new(Cell::new(0));
    let mock_translation = StubTranslation {
        expected_method: TranslationMethod::Yoda,
        expected_text: "pika pika".to_string(),
        reply: Ok("translated text".to_string()),
        calls: Rc::clone(&calls),
    };

    let context = Context::new(mock_pokeapi, mock_translation);

    let res = pokemon_translated(context, "pikachu".to_string());

    assert!(res.is_ok());

    let pokemon = res.unwrap();

    assert_eq!(pokemon.name, "pikachu");
    assert_eq!(pokemon.description, "translated text");
    assert_eq!(calls.get(), 1);
}

#[test]
fn test_translated_falls_back_when_translation_fails() {
    let mock_pokeapi = StubPokeApi {
        record: Some((
            "ditto".to_string(),
            "a purple blob".to_string(),
            "urban".to_string(),
            false,
        )),
    };
    let mock_translation = StubTranslation {
        expected_method: TranslationMethod::Shakespeare,
        expected_text: "a purple blob".to_string(),
        reply: Err(TranslationError::FailedToFetchTranslation),
        calls: Rc::new(Cell::new(0)),
    };

    let context = Context::new(mock_pokeapi, mock_translation);

    let pokemon = pokemon_translated(context, "ditto".to_string()).unwrap();
    assert_eq!(pokemon.name, "ditto");
    assert_eq!(pokemon.description, "a purple blob");
    assert_eq!(pokemon.habitat, "urban");
    assert!(!pokemon.is_legendary);
}

#[test]
fn test_translated_falls_back_on_unsuccessful_translation() {
    let mock_pokeapi = StubPokeApi {
        record: Some((
            "ditto".to_string(),
            "a purple blob".to_string(),
            "urban".to_string(),
            false,
        )),
    };
    let mock_translation = StubTranslation {
        expected_method: TranslationMethod::Shakespeare,
        expected_text: "a purple blob".to_string(),
        reply: Err(TranslationError::UnsuccessfulTranslation),
        calls: Rc::new(Cell::new(0)),
    };

    let context = Context::new(mock_pokeapi, mock_translation);

    let pokemon = pokemon_translated(context, "ditto".to_string()).unwrap();
    assert_eq!(pokemon.description, "a purple blob");
}

#[test]
fn test_translated_species_failure_skips_translation() {
    let mock_pokeapi = StubPokeApi { record: None };
    let calls = Rc::new(Cell::new(0));
    let mock_translation = StubTranslation {
        expected_method: TranslationMethod::Yoda,
        expected_text: String::new(),
        reply: Ok("never used".to_string()),
        calls: Rc::clone(&calls),
    };

    let context = Context::new(mock_pokeapi, mock_translation);

    let res = pokemon_translated(context, "badpokemon".to_string());
    assert!(matches!(
        res,
        Err(APIError::PokemonError(PokemonError::PokemonNotFound))
    ));
    assert_eq!(calls.get(), 0);
}

#[test]
fn test_pokemon_information_found() {
    let species = PokemonSpecies {
        is_legendary: false,
        flavor_text_entries: vec![FlavorText {
            flavor_text: "When the bulb on\nits back grows\nlarge, it appears\u{000c}to lose the\nability to stand\non its hind legs.".to_string(),
            language: Language {
                name: "en".to_string(),
            },
        }],
        habitat: Habitat {
            name: "grassland".to_string(),
        },
    };
    let fetched = pokemon_from_species("goodpokemon", species).unwrap();

    let mock_pokeapi = StubPokeApi {
        record: Some((
            "goodpokemon".to_string(),
            fetched.description.clone(),
            fetched.habitat.clone(),
            fetched.is_legendary,
        )),
    };
    let mock_translation = StubTranslation {
        expected_method: TranslationMethod::Shakespeare,
        expected_text: String::new(),
        reply: Ok("never used".to_string()),
        calls: Rc::new(Cell::new(0)),
    };
    let context = Context::new(mock_pokeapi, mock_translation);

    let res = pokemon_information(context, "goodpokemon".to_string());
    assert!(res.is_ok());
    let pokemon = res.unwrap();
    assert_eq!(pokemon.name, "goodpokemon");
    assert_eq!(
        pokemon.description,
        "When the bulb on its back grows large, it appears to lose the ability to stand on its hind legs."
    );
}

#[test]
fn test_pokemon_information_not_found() {
    let mock_pokeapi = StubPokeApi { record: None };
    let mock_translation = StubTranslation {
        expected_method: TranslationMethod::Shakespeare,
        expected_text: String::new(),
        reply: Ok("never used".to_string()),
        calls: Rc::new(Cell::new(0)),
    };
    let context = Context::new(mock_pokeapi, mock_translation);

    let res = pokemon_information(context, "badpokemon".to_string());
    assert!(matches!(
        res,
        Err(APIError::PokemonError(PokemonError::PokemonNotFound))
    ));
}

#[test]
fn test_end_to_end_translated() {
    let species = PokemonSpecies {
        is_legendary: true,
        flavor_text_entries: vec![FlavorText {
            flavor_text: "pika pika".to_string(),
            language: Language {
                name: "en".to_string(),
            },
        }],
        habitat: Habitat {
            name: "forest".to_string(),
        },
    };
    let fetched = pokemon_from_species("pikachu", species).unwrap();

    let mock_pokeapi = StubPokeApi {
        record: Some((
            "pikachu".to_string(),
            fetched.description.clone(),
            fetched.habitat.clone(),
            fetched.is_legendary,
        )),
    };
    let mock_translation = StubTranslation {
        expected_method: TranslationMethod::Yoda,
        expected_text: "pika pika".to_string(),
        reply: Ok("translated text".to_string()),
        calls: Rc::new(Cell::new(0)),
    };
    let context = Context::new(mock_pokeapi, mock_translation);

    let pokemon = pokemon_translated(context, "pikachu".to_string()).unwrap();
    assert_eq!(pokemon.name, "pikachu");
    assert_eq!(pokemon.description, "translated text");
    assert_eq!(pokemon.habitat, "forest");
    assert!(pokemon.is_legendary);
}

#[test]
fn test_apply_translation() {
    let pokemon = Pokemon::new(
        "mew".to_string(),
        "original".to_string(),
        "rare".to_string(),
        true,
    );
    let translated = apply_translation(pokemon, Ok("rewritten".to_string()));
    assert_eq!(translated.description, "rewritten");
    assert_eq!(translated.name, "mew");

    let pokemon = Pokemon::new(
        "mew".to_string(),
        "original".to_string(),
        "rare".to_string(),
        true,
    );
    let kept = apply_translation(pokemon, Err(TranslationError::FailedToFetchTranslation));
    assert_eq!(kept.description, "original");
}

#[test]
fn test_error_status_and_message() {
    let (status, message) =
        error_status_and_message(&APIError::PokemonError(PokemonError::PokemonNotFound));
    assert_eq!(status, 404);
    assert_eq!(message, "POKEMON_NOT_FOUND");

    let (status, message) = error_status_and_message(&APIError::PokemonError(
        PokemonError::FailedToFetchPokemonSpecies,
    ));
    assert_eq!(status, 500);
    assert_eq!(message, "INTERNAL_SERVER_ERROR");

    let (status, _) = error_status_and_message(&APIError::TranslationError(
        TranslationError::UnsuccessfulTranslation,
    ));
    assert_eq!(status, 500);
}
