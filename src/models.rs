use vstd::prelude::*;

use crate::credits::CreditBatch;
use vstd::std_specs::convert::FromSpec;
use crate::data::{
    at_slot, opt_view, APICharacter, APIPlanet, APIStarShip, CharacterView, PlanetView,
    StarShipView, StarWarsAPI,
};

verus! {

/// One of the films in the Star Wars Trilogy
#[derive(Clone, Copy, PartialEq, Eq, Structural, Debug)]
pub enum Episode {
    /// Released in 1977.
    NewHope,
    /// Released in 1980.
    Empire,
    /// Released in 1983.
    Jedi,
}

/// Copies a list of episodes element by element.
pub fn copy_episodes(v: &Vec<Episode>) -> (r: Vec<Episode>)
    ensures
        r@ == v@,
{
    let mut r: Vec<Episode> = Vec::new();
    let mut i: usize = 0;
    while i < v.len()
        invariant
            i <= v@.len(),
            r@ == v@.subrange(0, i as int),
        decreases v@.len() - i,
    {
        r.push(v[i]);
        i = i + 1;
        assert(r@ =~= v@.subrange(0, i as int));
    }
    assert(r@ =~= v@);
    r
}

/// How a character record is presented: a human shows no primary function, a
/// droid shows no home planet and no starship.
pub open spec fn presented(c: CharacterView) -> CharacterView {
    if c.is_human {
        CharacterView { primary_function: None, ..c }
    } else {
        CharacterView { home_planet: None, star_ship: None, ..c }
    }
}

/// The presented records that the friend slots resolve to, in order; a slot
/// that holds no record is skipped.
pub open spec fn resolved_friends(slots: Seq<usize>, recs: Seq<CharacterView>) -> Seq<CharacterView>
    decreases slots.len(),
{
    if slots.len() == 0 {
        Seq::empty()
    } else {
        let rest = resolved_friends(slots.drop_last(), recs);
        match at_slot(recs, slots.last()) {
            Some(c) => rest.push(presented(c)),
            None => rest,
        }
    }
}

/// The views of a sequence of presented characters.
pub open spec fn presented_views(v: Seq<Character>) -> Seq<CharacterView> {
    v.map_values(|c: Character| c@)
}

/// Resolves friend slots against the store.
fn resolve_friends(api: &StarWarsAPI, slots: &Vec<usize>) -> (r: Vec<Character>)
    requires
        api.wf(),
    ensures
        presented_views(r@) == resolved_friends(slots@, api.character_records()),
{
    let ghost recs = api.character_records();
    let mut r: Vec<Character> = Vec::new();
    let mut i: usize = 0;
    while i < slots.len()
        invariant
            api.wf(),
            recs == api.character_records(),
            i <= slots@.len(),
            presented_views(r@) == resolved_friends(slots@.subrange(0, i as int), recs),
        decreases slots@.len() - i,
    {
        assert(slots@.subrange(0, i + 1).drop_last() =~= slots@.subrange(0, i as int));
        match api.get_character(slots[i]) {
            Some(c) => {
                let ghost before = r@;
                r.push(Character::from(c));
                assert(presented_views(r@) =~= presented_views(before).push(presented(recs[slots@[i as int] as int])));
            },
            None => {},
        }
        i = i + 1;
    }
    assert(slots@.subrange(0, slots@.len() as int) =~= slots@);
    r
}

/// A human as clients see it.
pub struct Human {
    /// id of this character
    pub id: String,
    /// name of this character
    pub name: String,
    /// slots of this character's friends in the character store
    pub friends: Vec<usize>,
    /// all the episodes this character appeared in
    pub appears_in: Vec<Episode>,
    /// slot of the home planet
    pub home_planet: Option<usize>,
    /// slot of the starship
    pub star_ship: Option<usize>,
    /// mass of the character in kg
    pub mass: usize,
}

impl View for Human {
    type V = CharacterView;

    open spec fn view(&self) -> CharacterView {
        CharacterView {
            is_human: true,
            id: self.id@,
            name: self.name@,
            friends: self.friends@,
            appears_in: self.appears_in@,
            home_planet: self.home_planet,
            star_ship: self.star_ship,
            primary_function: None,
            mass: self.mass,
        }
    }
}

impl From<APICharacter> for Human {
    fn from(value: APICharacter) -> (r: Human) {
        Human {
            id: value.id,
            name: value.name,
            friends: value.friends,
            appears_in: value.appears_in,
            home_planet: value.home_planet,
            star_ship: value.star_ship,
            mass: value.mass,
        }
    }
}

impl vstd::std_specs::convert::FromSpecImpl<APICharacter> for Human {
    open spec fn obeys_from_spec() -> bool {
        true
    }

    open spec fn from_spec(value: APICharacter) -> Human {
        Human {
            id: value.id,
            name: value.name,
            friends: value.friends,
            appears_in: value.appears_in,
            home_planet: value.home_planet,
            star_ship: value.star_ship,
            mass: value.mass,
        }
    }
}

impl Human {
    /// id of this character
    pub fn id(&self) -> (r: &str)
        ensures
            r@ == self.id@,
    {
        self.id.as_str()
    }

    /// name of this character
    pub fn name(&self) -> (r: &str)
        ensures
            r@ == self.name@,
    {
        self.name.as_str()
    }

    /// The friends, resolved against the store.
    pub fn friends(&self, api: &StarWarsAPI) -> (r: Vec<Character>)
        requires
            api.wf(),
        ensures
            presented_views(r@) == resolved_friends(self.friends@, api.character_records()),
    {
        resolve_friends(api, &self.friends)
    }

    /// all the episodes this character appeared in
    pub fn appears_in(&self) -> (r: Vec<Episode>)
        ensures
            r@ == self.appears_in@,
    {
        copy_episodes(&self.appears_in)
    }

    /// mass in kg
    pub fn mass(&self) -> (r: usize)
        ensures
            r == self.mass,
    {
        self.mass
    }

    /// The home planet, resolved against the store.
    pub fn home_planet(&self, api: &StarWarsAPI) -> (r: Option<Planet>)
        requires
            api.wf(),
        ensures
            opt_view(r) == match self.home_planet {
                Some(p) => at_slot(api.planet_records(), p),
                None => None,
            },
    {
        match self.home_planet {
            Some(p) => match api.get_planet_by_idx(p) {
                Some(planet) => Some(Planet::from(planet)),
                None => None,
            },
            None => None,
        }
    }

    /// The starship, resolved against the store.
    pub fn starship(&self, api: &StarWarsAPI) -> (r: Option<StarShip>)
        requires
            api.wf(),
        ensures
            opt_view(r) == match self.star_ship {
                Some(p) => at_slot(api.starship_records(), p),
                None => None,
            },
    {
        match self.star_ship {
            Some(p) => match api.get_starship_by_idx(p) {
                Some(ship) => Some(StarShip::from(ship)),
                None => None,
            },
            None => None,
        }
    }

    /// The credits of this character in a fetched batch; absent when the
    /// batch has no row for its id.
    pub fn credits(&self, batch: &CreditBatch) -> (r: Option<i64>)
        ensures
            r == batch.amount_of(self.id@),
    {
        batch.get(&self.id)
    }
}

/// A droid as clients see it.
pub struct Droid {
    /// id of this character
    pub id: String,
    /// name of this character
    pub name: String,
    /// slots of this character's friends in the character store
    pub friends: Vec<usize>,
    /// all the episodes this character appeared in
    pub appears_in: Vec<Episode>,
    /// primary function of the droid
    pub primary_function: Option<String>,
    /// mass of the character in kg
    pub mass: usize,
}

impl View for Droid {
    type V = CharacterView;

    open spec fn view(&self) -> CharacterView {
        CharacterView {
            is_human: false,
            id: self.id@,
            name: self.name@,
            friends: self.friends@,
            appears_in: self.appears_in@,
            home_planet: None,
            star_ship: None,
            primary_function: crate::data::opt_str_view(self.primary_function),
            mass: self.mass,
        }
    }
}

impl From<APICharacter> for Droid {
    fn from(value: APICharacter) -> (r: Droid) {
        Droid {
            id: value.id,
            name: value.name,
            friends: value.friends,
            appears_in: value.appears_in,
            mass: value.mass,
            primary_function: value.primary_function,
        }
    }
}

impl vstd::std_specs::convert::FromSpecImpl<APICharacter> for Droid {
    open spec fn obeys_from_spec() -> bool {
        true
    }

    open spec fn from_spec(value: APICharacter) -> Droid {
        Droid {
            id: value.id,
            name: value.name,
            friends: value.friends,
            appears_in: value.appears_in,
            mass: value.mass,
            primary_function: value.primary_function,
        }
    }
}

impl Droid {
    /// id of this character
    pub fn id(&self) -> (r: &str)
        ensures
            r@ == self.id@,
    {
        self.id.as_str()
    }

    /// name of this character
    pub fn name(&self) -> (r: &str)
        ensures
            r@ == self.name@,
    {
        self.name.as_str()
    }

    /// The friends, resolved against the store.
    pub fn friends(&self, api: &StarWarsAPI) -> (r: Vec<Character>)
        requires
            api.wf(),
        ensures
            presented_views(r@) == resolved_friends(self.friends@, api.character_records()),
    {
        resolve_friends(api, &self.friends)
    }

    /// all the episodes this character appeared in
    pub fn appears_in(&self) -> (r: Vec<Episode>)
        ensures
            r@ == self.appears_in@,
    {
        copy_episodes(&self.appears_in)
    }

    /// The primary function of the droid.
    pub fn primary_function(&self) -> (r: Option<&str>)
        ensures
            match r {
                Some(s) => self.primary_function matches Some(f) && s@ == f@,
                None => self.primary_function is None,
            },
    {
        match &self.primary_function {
            Some(f) => Some(f.as_str()),
            None => None,
        }
    }
}

/// A starship as clients see it.
pub struct StarShip(pub APIStarShip);

impl View for StarShip {
    type V = StarShipView;

    open spec fn view(&self) -> StarShipView {
        self.0@
    }
}

impl From<APIStarShip> for StarShip {
    fn from(value: APIStarShip) -> (r: StarShip) {
        StarShip(value)
    }
}

impl vstd::std_specs::convert::FromSpecImpl<APIStarShip> for StarShip {
    open spec fn obeys_from_spec() -> bool {
        true
    }

    open spec fn from_spec(value: APIStarShip) -> StarShip {
        StarShip(value)
    }
}

impl StarShip {
    /// the id of the starship
    pub fn id(&self) -> (r: String)
        ensures
            r@ == self.0.id@,
    {
        self.0.id.clone()
    }

    /// name of the starship
    pub fn name(&self) -> (r: String)
        ensures
            r@ == self.0.name@,
    {
        self.0.name.clone()
    }

    /// length of the starship in millimetres
    pub fn length_mm(&self) -> (r: u64)
        ensures
            r == self.0.length_mm,
    {
        self.0.length_mm
    }
}

/// A planet as clients see it.
pub struct Planet(APIPlanet);

impl View for Planet {
    type V = PlanetView;

    closed spec fn view(&self) -> PlanetView {
        self.0@
    }
}

impl From<APIPlanet> for Planet {
    fn from(value: APIPlanet) -> (r: Planet) {
        Planet(value)
    }
}

impl vstd::std_specs::convert::FromSpecImpl<APIPlanet> for Planet {
    closed spec fn obeys_from_spec() -> bool {
        true
    }

    closed spec fn from_spec(value: APIPlanet) -> Planet {
        Planet(value)
    }
}

impl Planet {
    /// the id of the planet
    pub fn id(&self) -> (r: String)
        ensures
            r@ == self@.id,
    {
        self.0.id.clone()
    }

    /// the name of the planet
    pub fn name(&self) -> (r: String)
        ensures
            r@ == self@.name,
    {
        self.0.name.clone()
    }
}

/// A human or a droid.
pub enum Character {
    Human(Human),
    Droid(Droid),
}

impl View for Character {
    type V = CharacterView;

    open spec fn view(&self) -> CharacterView {
        match self {
            Character::Human(h) => h@,
            Character::Droid(d) => d@,
        }
    }
}

impl From<APICharacter> for Character {
    fn from(value: APICharacter) -> (r: Character) {
        if value.is_human {
            Character::Human(Human::from(value))
        } else {
            Character::Droid(Droid::from(value))
        }
    }
}

impl vstd::std_specs::convert::FromSpecImpl<APICharacter> for Character {
    open spec fn obeys_from_spec() -> bool {
        true
    }

    open spec fn from_spec(value: APICharacter) -> Character {
        if value.is_human {
            Character::Human(<Human as FromSpec<APICharacter>>::from_spec(value))
        } else {
            Character::Droid(<Droid as FromSpec<APICharacter>>::from_spec(value))
        }
    }
}

} // verus!
