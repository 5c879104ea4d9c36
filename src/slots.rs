use vstd::prelude::*;

use crate::data::{APICharacter, APIPlanet, APIStarShip, CharacterView, PlanetView, StarShipView};
use slab::Slab;

verus! {

#[verifier::external_type_specification]
#[verifier::external_body]
#[verifier::reject_recursive_types(T)]
pub struct ExSlab<T>(Slab<T>);

/// The records a character slab holds, by key.
pub uninterp spec fn character_slots(s: Slab<APICharacter>) -> Map<usize, CharacterView>;

/// How many keys a character slab has ever laid out (its entry vector's length).
pub uninterp spec fn character_extent(s: Slab<APICharacter>) -> nat;

/// The records a starship slab holds, by key.
pub uninterp spec fn starship_slots(s: Slab<APIStarShip>) -> Map<usize, StarShipView>;

/// How many keys a starship slab has ever laid out.
pub uninterp spec fn starship_extent(s: Slab<APIStarShip>) -> nat;

/// The records a planet slab holds, by key.
pub uninterp spec fn planet_slots(s: Slab<APIPlanet>) -> Map<usize, PlanetView>;

/// How many keys a planet slab has ever laid out.
pub uninterp spec fn planet_extent(s: Slab<APIPlanet>) -> nat;

/// Relies on slab::Slab::with_capacity: the new slab holds nothing and has laid out no key.
#[verifier::external_body]
pub(crate) fn new_character_slab(capacity: usize) -> (r: Slab<APICharacter>)
    ensures
        forall|k: usize| !character_slots(r).contains_key(k),
        character_extent(r) == 0,
{
    Slab::with_capacity(capacity)
}

/// Relies on slab::Slab::insert: the value goes under a free key; where no key
/// below the extent is free, that key is the extent itself and the extent grows by one.
#[verifier::external_body]
pub(crate) fn insert_character(s: &mut Slab<APICharacter>, c: APICharacter) -> (k: usize)
    requires
        character_extent(*old(s)) < usize::MAX,
    ensures
        !character_slots(*old(s)).contains_key(k),
        character_slots(*final(s)) == character_slots(*old(s)).insert(k, c@),
        (forall|j: usize| j < character_extent(*old(s)) ==> character_slots(*old(s)).contains_key(j))
            ==> k == character_extent(*old(s)) && character_extent(*final(s)) == character_extent(*old(s)) + 1,
{
    s.insert(c)
}

/// Relies on slab::Slab::get: the value stored under the key, if any.
#[verifier::external_body]
pub(crate) fn character_at(s: &Slab<APICharacter>, k: usize) -> (r: Option<&APICharacter>)
    ensures
        r.is_some() == character_slots(*s).contains_key(k),
        r.is_some() ==> r.unwrap()@ == character_slots(*s)[k],
{
    s.get(k)
}

/// Relies on slab::Slab's IndexMut: the value under an occupied key is replaced.
#[verifier::external_body]
pub(crate) fn replace_character(s: &mut Slab<APICharacter>, k: usize, c: APICharacter)
    requires
        character_slots(*old(s)).contains_key(k),
    ensures
        character_slots(*final(s)) == character_slots(*old(s)).insert(k, c@),
        character_extent(*final(s)) == character_extent(*old(s)),
{
    s[k] = c;
}

/// Relies on slab::Slab::with_capacity: the new slab holds nothing and has laid out no key.
#[verifier::external_body]
pub(crate) fn new_starship_slab(capacity: usize) -> (r: Slab<APIStarShip>)
    ensures
        forall|k: usize| !starship_slots(r).contains_key(k),
        starship_extent(r) == 0,
{
    Slab::with_capacity(capacity)
}

/// Relies on slab::Slab::insert: the value goes under a free key; where no key
/// below the extent is free, that key is the extent itself and the extent grows by one.
#[verifier::external_body]
pub(crate) fn insert_starship(s: &mut Slab<APIStarShip>, c: APIStarShip) -> (k: usize)
    requires
        starship_extent(*old(s)) < usize::MAX,
    ensures
        !starship_slots(*old(s)).contains_key(k),
        starship_slots(*final(s)) == starship_slots(*old(s)).insert(k, c@),
        (forall|j: usize| j < starship_extent(*old(s)) ==> starship_slots(*old(s)).contains_key(j))
            ==> k == starship_extent(*old(s)) && starship_extent(*final(s)) == starship_extent(*old(s)) + 1,
{
    s.insert(c)
}

/// Relies on slab::Slab::get: the value stored under the key, if any.
#[verifier::external_body]
pub(crate) fn starship_at(s: &Slab<APIStarShip>, k: usize) -> (r: Option<&APIStarShip>)
    ensures
        r.is_some() == starship_slots(*s).contains_key(k),
        r.is_some() ==> r.unwrap()@ == starship_slots(*s)[k],
{
    s.get(k)
}

/// Relies on slab::Slab::with_capacity: the new slab holds nothing and has laid out no key.
#[verifier::external_body]
pub(crate) fn new_planet_slab(capacity: usize) -> (r: Slab<APIPlanet>)
    ensures
        forall|k: usize| !planet_slots(r).contains_key(k),
        planet_extent(r) == 0,
{
    Slab::with_capacity(capacity)
}

/// Relies on slab::Slab::insert: the value goes under a free key; where no key
/// below the extent is free, that key is the extent itself and the extent grows by one.
#[verifier::external_body]
pub(crate) fn insert_planet(s: &mut Slab<APIPlanet>, c: APIPlanet) -> (k: usize)
    requires
        planet_extent(*old(s)) < usize::MAX,
    ensures
        !planet_slots(*old(s)).contains_key(k),
        planet_slots(*final(s)) == planet_slots(*old(s)).insert(k, c@),
        (forall|j: usize| j < planet_extent(*old(s)) ==> planet_slots(*old(s)).contains_key(j))
            ==> k == planet_extent(*old(s)) && planet_extent(*final(s)) == planet_extent(*old(s)) + 1,
{
    s.insert(c)
}

/// Relies on slab::Slab::get: the value stored under the key, if any.
#[verifier::external_body]
pub(crate) fn planet_at(s: &Slab<APIPlanet>, k: usize) -> (r: Option<&APIPlanet>)
    ensures
        r.is_some() == planet_slots(*s).contains_key(k),
        r.is_some() ==> r.unwrap()@ == planet_slots(*s)[k],
{
    s.get(k)
}

} // verus!
