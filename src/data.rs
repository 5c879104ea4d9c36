use vstd::prelude::*;

use crate::models::{copy_episodes, Episode};

use crate::slots::{
    character_at, character_extent, character_slots, insert_character, insert_planet,
    insert_starship, new_character_slab, new_planet_slab, new_starship_slab, planet_at,
    planet_extent, planet_slots, replace_character, starship_at, starship_extent, starship_slots,
};
use slab::Slab;

verus! {

/// What a character record holds, as mathematical values.
pub struct CharacterView {
    pub is_human: bool,
    pub id: Seq<char>,
    pub name: Seq<char>,
    pub friends: Seq<usize>,
    pub appears_in: Seq<Episode>,
    pub home_planet: Option<usize>,
    pub star_ship: Option<usize>,
    pub primary_function: Option<Seq<char>>,
    pub mass: usize,
}

/// The view of an optional string.
pub open spec fn opt_str_view(s: Option<String>) -> Option<Seq<char>> {
    match s {
        Some(t) => Some(t@),
        None => None,
    }
}

/// One stored character: humans and droids share this single record shape,
/// told apart by `is_human`.
#[derive(Clone)]
pub struct APICharacter {
    /// whether this record is a human (otherwise a droid)
    pub is_human: bool,
    /// id of this character
    pub id: String,
    /// name of this character
    pub name: String,
    /// slots of this character's friends in the character store
    pub friends: Vec<usize>,
    /// all the episodes this character appeared in
    pub appears_in: Vec<Episode>,
    /// slot of the home planet of a human
    pub home_planet: Option<usize>,
    /// slot of the starship of a human
    pub star_ship: Option<usize>,
    /// primary function of a droid
    pub primary_function: Option<String>,
    /// mass of the character in kg
    pub mass: usize,
}

impl View for APICharacter {
    type V = CharacterView;

    open spec fn view(&self) -> CharacterView {
        CharacterView {
            is_human: self.is_human,
            id: self.id@,
            name: self.name@,
            friends: self.friends@,
            appears_in: self.appears_in@,
            home_planet: self.home_planet,
            star_ship: self.star_ship,
            primary_function: opt_str_view(self.primary_function),
            mass: self.mass,
        }
    }
}

/// Copies a list of slots element by element.
pub fn copy_slots(v: &Vec<usize>) -> (r: Vec<usize>)
    ensures
        r@ == v@,
{
    let mut r: Vec<usize> = Vec::new();
    let mut i: usize = 0;
    while i < v.len()
        invariant
            i <= v@.len(),
            r@ == v@.subrange(0, i as int),
        decreases v@.len() - i,
    {
        r.push(v[i]);
        i = i + 1;
        assert(r@ =~= v@.subrange(0, i as int));
    }
    assert(r@ =~= v@);
    r
}

fn copy_opt_string(s: &Option<String>) -> (r: Option<String>)
    ensures
        opt_str_view(r) == opt_str_view(*s),
{
    match s {
        Some(t) => Some(t.clone()),
        None => None,
    }
}

impl APICharacter {
    /// A record with the given id and name: a droid with no friends, no
    /// episodes, no planet, no starship, no function and mass zero.
    pub fn build(id: &str, name: &str) -> (r: APICharacter)
        ensures
            r@ == (CharacterView {
                is_human: false,
                id: id@,
                name: name@,
                friends: Seq::empty(),
                appears_in: Seq::empty(),
                home_planet: None,
                star_ship: None,
                primary_function: None,
                mass: 0,
            }),
    {
        let r = APICharacter {
            is_human: false,
            id: id.to_owned(),
            name: name.to_owned(),
            friends: Vec::new(),
            appears_in: Vec::new(),
            home_planet: None,
            star_ship: None,
            primary_function: None,
            mass: 0,
        };
        assert(r@.friends =~= Seq::<usize>::empty());
        assert(r@.appears_in =~= Seq::<Episode>::empty());
        r
    }

    /// Marks the record as a human.
    pub fn is_human(self) -> (r: APICharacter)
        ensures
            r@ == (CharacterView { is_human: true, ..self@ }),
    {
        let mut s = self;
        s.is_human = true;
        s
    }

    /// Marks the record as a droid.
    pub fn is_droid(self) -> (r: APICharacter)
        ensures
            r@ == (CharacterView { is_human: false, ..self@ }),
    {
        let mut s = self;
        s.is_human = false;
        s
    }

    /// Replaces the friend slots.
    pub fn set_friends(self, friends: Vec<usize>) -> (r: APICharacter)
        ensures
            r@ == (CharacterView { friends: friends@, ..self@ }),
    {
        let mut s = self;
        s.friends = friends;
        s
    }

    /// Replaces the episodes.
    pub fn appeared_in(self, episodes: Vec<Episode>) -> (r: APICharacter)
        ensures
            r@ == (CharacterView { appears_in: episodes@, ..self@ }),
    {
        let mut s = self;
        s.appears_in = episodes;
        s
    }

    /// Sets the home planet slot.
    pub fn home_planet(self, planet: usize) -> (r: APICharacter)
        ensures
            r@ == (CharacterView { home_planet: Some(planet), ..self@ }),
    {
        let mut s = self;
        s.home_planet = Some(planet);
        s
    }

    /// Sets the starship slot.
    pub fn star_ship(self, starship: usize) -> (r: APICharacter)
        ensures
            r@ == (CharacterView { star_ship: Some(starship), ..self@ }),
    {
        let mut s = self;
        s.star_ship = Some(starship);
        s
    }

    /// Sets the primary function.
    pub fn primary_function(self, function: String) -> (r: APICharacter)
        ensures
            r@ == (CharacterView { primary_function: Some(function@), ..self@ }),
    {
        let mut s = self;
        s.primary_function = Some(function);
        s
    }

    /// Sets the mass in kg.
    pub fn mass(self, m: usize) -> (r: APICharacter)
        ensures
            r@ == (CharacterView { mass: m, ..self@ }),
    {
        let mut s = self;
        s.mass = m;
        s
    }

    /// A copy of this record, field by field.
    pub fn duplicate(&self) -> (r: APICharacter)
        ensures
            r@ == self@,
    {
        APICharacter {
            is_human: self.is_human,
            id: self.id.clone(),
            name: self.name.clone(),
            friends: copy_slots(&self.friends),
            appears_in: copy_episodes(&self.appears_in),
            home_planet: self.home_planet,
            star_ship: self.star_ship,
            primary_function: copy_opt_string(&self.primary_function),
            mass: self.mass,
        }
    }
}


/// What a starship record holds, as mathematical values.
pub struct StarShipView {
    pub id: Seq<char>,
    pub name: Seq<char>,
    pub length_mm: u64,
}

/// One stored starship.
#[derive(Clone)]
pub struct APIStarShip {
    /// id of the starship
    pub id: String,
    /// name of the starship
    pub name: String,
    /// length of the starship in millimetres
    pub length_mm: u64,
}

impl View for APIStarShip {
    type V = StarShipView;

    open spec fn view(&self) -> StarShipView {
        StarShipView { id: self.id@, name: self.name@, length_mm: self.length_mm }
    }
}

impl APIStarShip {
    /// A copy of this record, field by field.
    pub fn duplicate(&self) -> (r: APIStarShip)
        ensures
            r@ == self@,
    {
        APIStarShip { id: self.id.clone(), name: self.name.clone(), length_mm: self.length_mm }
    }
}

/// What a planet record holds, as mathematical values.
pub struct PlanetView {
    pub id: Seq<char>,
    pub name: Seq<char>,
    pub climate: Seq<char>,
    pub diameter: usize,
    pub gravity: Seq<char>,
    pub population: usize,
    pub rotation_period: usize,
    pub orbital_period: usize,
}

/// One stored planet.
#[derive(Clone)]
pub struct APIPlanet {
    /// id of the planet
    pub id: String,
    /// the name of the planet
    pub name: String,
    pub climate: String,
    /// in kilometres
    pub diameter: usize,
    /// description
    pub gravity: String,
    pub population: usize,
    /// standard hours
    pub rotation_period: usize,
    /// standard days
    pub orbital_period: usize,
}

impl View for APIPlanet {
    type V = PlanetView;

    open spec fn view(&self) -> PlanetView {
        PlanetView {
            id: self.id@,
            name: self.name@,
            climate: self.climate@,
            diameter: self.diameter,
            gravity: self.gravity@,
            population: self.population,
            rotation_period: self.rotation_period,
            orbital_period: self.orbital_period,
        }
    }
}

impl APIPlanet {
    /// A copy of this record, field by field.
    pub fn duplicate(&self) -> (r: APIPlanet)
        ensures
            r@ == self@,
    {
        APIPlanet {
            id: self.id.clone(),
            name: self.name.clone(),
            climate: self.climate.clone(),
            diameter: self.diameter,
            gravity: self.gravity.clone(),
            population: self.population,
            rotation_period: self.rotation_period,
            orbital_period: self.orbital_period,
        }
    }
}

/// The store of characters, starships and planets. Each record lives in a slot
/// that was handed out when it was inserted; slots are never reused.
pub struct StarWarsAPI {
    char_id_counter: usize,
    starship_id_counter: usize,
    planet_id_counter: usize,
    luke_idx: usize,
    r2d2_idx: usize,
    characters: Slab<APICharacter>,
    starships: Slab<APIStarShip>,
    planets: Slab<APIPlanet>,
}

/// The character at `slot` of the seeded store.
pub open spec fn seed_character(slot: int) -> CharacterView {
    let all = seq![Episode::Empire, Episode::NewHope, Episode::Jedi];
    if slot == 0 {
        CharacterView { is_human: true, id: "1"@, name: "Luke Skywalker"@, friends: seq![3usize, 2, 5, 6],
            appears_in: all, home_planet: Some(0usize), star_ship: Some(0usize), primary_function: None, mass: 77 }
    } else if slot == 1 {
        CharacterView { is_human: true, id: "2"@, name: "Darth Vader"@, friends: seq![4usize],
            appears_in: all, home_planet: Some(0usize), star_ship: Some(2usize), primary_function: None, mass: 120 }
    } else if slot == 2 {
        CharacterView { is_human: true, id: "3"@, name: "Han Solo"@, friends: seq![3usize, 0, 5, 6],
            appears_in: all, home_planet: None, star_ship: Some(4usize), primary_function: None, mass: 85 }
    } else if slot == 3 {
        CharacterView { is_human: true, id: "4"@, name: "Leia Organa"@, friends: seq![0usize, 2, 5, 6],
            appears_in: all, home_planet: Some(1usize), star_ship: Some(1usize), primary_function: None, mass: 60 }
    } else if slot == 4 {
        CharacterView { is_human: true, id: "5"@, name: "Wilhuff Tarkin"@, friends: seq![1usize],
            appears_in: all, home_planet: None, star_ship: Some(3usize), primary_function: None, mass: 90 }
    } else if slot == 5 {
        CharacterView { is_human: false, id: "6"@, name: "R2-D2"@, friends: seq![0usize, 3, 2, 6],
            appears_in: all, home_planet: None, star_ship: None, primary_function: Some("Astromech"@), mass: 32 }
    } else {
        CharacterView { is_human: false, id: "7"@, name: "C-3PO"@, friends: seq![0usize, 2, 3, 5],
            appears_in: all, home_planet: None, star_ship: None, primary_function: Some("Protocol"@), mass: 75 }
    }
}

/// The starship at `slot` of the seeded store.
pub open spec fn seed_starship(slot: int) -> StarShipView {
    if slot == 0 {
        StarShipView { id: "1"@, name: "X-Wing"@, length_mm: 12490 }
    } else if slot == 1 {
        StarShipView { id: "2"@, name: "Tantive IV"@, length_mm: 126000 }
    } else if slot == 2 {
        StarShipView { id: "3"@, name: "Tie Figter"@, length_mm: 9200 }
    } else if slot == 3 {
        StarShipView { id: "4"@, name: "Death Star"@, length_mm: 12490 }
    } else {
        StarShipView { id: "5"@, name: "Millenium Falcon"@, length_mm: 34750 }
    }
}

/// The planet at `slot` of the seeded store.
pub open spec fn seed_planet(slot: int) -> PlanetView {
    if slot == 0 {
        PlanetView { id: "1"@, name: "Tatooine"@, climate: "arid"@, diameter: 10465, gravity: "Standard"@,
            population: 200000, rotation_period: 23, orbital_period: 304 }
    } else {
        PlanetView { id: "2"@, name: "Alderaan"@, climate: "arid"@, diameter: 10465, gravity: "Temperate"@,
            population: 2000000000, rotation_period: 24, orbital_period: 364 }
    }
}

/// Gives the character under `k` a new friend list.
fn set_friends_at(s: &mut Slab<APICharacter>, k: usize, friends: Vec<usize>)
    requires
        character_slots(*old(s)).contains_key(k),
    ensures
        character_slots(*final(s)) == character_slots(*old(s)).insert(
            k,
            CharacterView { friends: friends@, ..character_slots(*old(s))[k] },
        ),
        character_extent(*final(s)) == character_extent(*old(s)),
{
    let c = character_at(s, k).unwrap().duplicate().set_friends(friends);
    replace_character(s, k, c);
}

/// Gives the character under `k` a home planet.
fn set_home_planet_at(s: &mut Slab<APICharacter>, k: usize, planet: usize)
    requires
        character_slots(*old(s)).contains_key(k),
    ensures
        character_slots(*final(s)) == character_slots(*old(s)).insert(
            k,
            CharacterView { home_planet: Some(planet), ..character_slots(*old(s))[k] },
        ),
        character_extent(*final(s)) == character_extent(*old(s)),
{
    let c = character_at(s, k).unwrap().duplicate().home_planet(planet);
    replace_character(s, k, c);
}

fn all_episodes() -> (r: Vec<Episode>)
    ensures
        r@ == seq![Episode::Empire, Episode::NewHope, Episode::Jedi],
{
    let r = vec![Episode::Empire, Episode::NewHope, Episode::Jedi];
    assert(r@ =~= seq![Episode::Empire, Episode::NewHope, Episode::Jedi]);
    r
}

/// The first character of `s` whose id is `id`, if any.
pub open spec fn first_with_id(s: Seq<CharacterView>, id: Seq<char>) -> Option<CharacterView>
    decreases s.len(),
{
    if s.len() == 0 {
        None
    } else {
        match first_with_id(s.drop_last(), id) {
            Some(c) => Some(c),
            None => if s.last().id == id {
                Some(s.last())
            } else {
                None
            },
        }
    }
}

/// The first character whose id is `id`, kept only when it is of the asked
/// category (`human` for humans, `!human` for droids).
pub open spec fn lookup_in_category(s: Seq<CharacterView>, id: Seq<char>, human: bool) -> Option<CharacterView> {
    match first_with_id(s, id) {
        Some(c) => if c.is_human == human {
            Some(c)
        } else {
            None
        },
        None => None,
    }
}

/// The characters of `s` of one category, in their order in `s`.
pub open spec fn of_category(s: Seq<CharacterView>, human: bool) -> Seq<CharacterView>
    decreases s.len(),
{
    if s.len() == 0 {
        Seq::empty()
    } else if s.last().is_human == human {
        of_category(s.drop_last(), human).push(s.last())
    } else {
        of_category(s.drop_last(), human)
    }
}

/// The first starship of `s` whose id is `id`, if any.
pub open spec fn first_starship_with_id(s: Seq<StarShipView>, id: Seq<char>) -> Option<StarShipView>
    decreases s.len(),
{
    if s.len() == 0 {
        None
    } else {
        match first_starship_with_id(s.drop_last(), id) {
            Some(c) => Some(c),
            None => if s.last().id == id {
                Some(s.last())
            } else {
                None
            },
        }
    }
}

/// The views of a sequence of character records.
pub open spec fn character_views(v: Seq<APICharacter>) -> Seq<CharacterView> {
    v.map_values(|c: APICharacter| c@)
}

/// The record at `slot` of `s`, if the slot is in range.
pub open spec fn at_slot<T>(s: Seq<T>, slot: usize) -> Option<T> {
    if slot < s.len() {
        Some(s[slot as int])
    } else {
        None
    }
}

/// The view of an optional record.
pub open spec fn opt_view<T: View>(o: Option<T>) -> Option<T::V> {
    match o {
        Some(t) => Some(t@),
        None => None,
    }
}

impl Default for StarWarsAPI {
    /// The seeded store.
    fn default() -> (r: StarWarsAPI)
        ensures
            r.seeded(),
    {
        StarWarsAPI::new()
    }
}

impl StarWarsAPI {
    /// The characters in slot order.
    pub closed spec fn character_records(&self) -> Seq<CharacterView> {
        Seq::new(self.char_id_counter as nat, |i: int| character_slots(self.characters)[i as usize])
    }

    /// The starships in slot order.
    pub closed spec fn starship_records(&self) -> Seq<StarShipView> {
        Seq::new(self.starship_id_counter as nat, |i: int| starship_slots(self.starships)[i as usize])
    }

    /// The planets in slot order.
    pub closed spec fn planet_records(&self) -> Seq<PlanetView> {
        Seq::new(self.planet_id_counter as nat, |i: int| planet_slots(self.planets)[i as usize])
    }

    /// The slot of the saga-wide hero.
    pub closed spec fn saga_hero_slot(&self) -> int {
        self.luke_idx as int
    }

    /// The slot of the droid hero.
    pub closed spec fn droid_hero_slot(&self) -> int {
        self.r2d2_idx as int
    }

    /// Every collection holds exactly the slots below its counter, and the
    /// two hero slots are among them.
    pub closed spec fn wf(&self) -> bool {
        &&& forall|k: usize| character_slots(self.characters).contains_key(k) <==> k < self.char_id_counter
        &&& character_extent(self.characters) == self.char_id_counter
        &&& forall|k: usize| starship_slots(self.starships).contains_key(k) <==> k < self.starship_id_counter
        &&& starship_extent(self.starships) == self.starship_id_counter
        &&& forall|k: usize| planet_slots(self.planets).contains_key(k) <==> k < self.planet_id_counter
        &&& planet_extent(self.planets) == self.planet_id_counter
        &&& self.luke_idx < self.char_id_counter
        &&& self.r2d2_idx < self.char_id_counter
    }

    /// The store holds exactly the seeded data set, with Luke Skywalker as
    /// saga hero and R2-D2 as droid hero.
    pub open spec fn seeded(&self) -> bool {
        &&& self.wf()
        &&& self.character_records().len() == 7
        &&& forall|i: int| 0 <= i < 7 ==> self.character_records()[i] == seed_character(i)
        &&& self.starship_records().len() == 5
        &&& forall|i: int| 0 <= i < 5 ==> self.starship_records()[i] == seed_starship(i)
        &&& self.planet_records().len() == 2
        &&& forall|i: int| 0 <= i < 2 ==> self.planet_records()[i] == seed_planet(i)
        &&& self.saga_hero_slot() == 0
        &&& self.droid_hero_slot() == 5
    }

    /// A store seeded with the fixed data set: five starships, seven
    /// characters linked by friend, starship and home planet slots, two planets.
    #[verifier::rlimit(60)]
    pub fn new() -> (r: StarWarsAPI)
        ensures
            r.seeded(),
    {
        let mut starships = new_starship_slab(7);
        let xwing = insert_starship(
            &mut starships,
            APIStarShip { id: "1".to_owned(), name: "X-Wing".to_owned(), length_mm: 12490 },
        );
        let tantive = insert_starship(
            &mut starships,
            APIStarShip { id: "2".to_owned(), name: "Tantive IV".to_owned(), length_mm: 126000 },
        );
        let tie = insert_starship(
            &mut starships,
            APIStarShip { id: "3".to_owned(), name: "Tie Figter".to_owned(), length_mm: 9200 },
        );
        let death_star = insert_starship(
            &mut starships,
            APIStarShip { id: "4".to_owned(), name: "Death Star".to_owned(), length_mm: 12490 },
        );
        let falcon = insert_starship(
            &mut starships,
            APIStarShip { id: "5".to_owned(), name: "Millenium Falcon".to_owned(), length_mm: 34750 },
        );
        assert(xwing == 0 && tantive == 1 && tie == 2 && death_star == 3 && falcon == 4);

        let mut characters = new_character_slab(7);
        let luke = insert_character(
            &mut characters,
            APICharacter::build("1", "Luke Skywalker").is_human().appeared_in(all_episodes()).star_ship(
                xwing,
            ).mass(77),
        );
        let vader = insert_character(
            &mut characters,
            APICharacter::build("2", "Darth Vader").is_human().star_ship(tie).appeared_in(
                all_episodes(),
            ).mass(120),
        );
        let han = insert_character(
            &mut characters,
            APICharacter::build("3", "Han Solo").is_human().appeared_in(all_episodes()).star_ship(
                falcon,
            ).mass(85),
        );
        let leia = insert_character(
            &mut characters,
            APICharacter::build("4", "Leia Organa").is_human().star_ship(tantive).appeared_in(
                all_episodes(),
            ).mass(60),
        );
        let tarkin = insert_character(
            &mut characters,
            APICharacter::build("5", "Wilhuff Tarkin").is_human().star_ship(death_star).appeared_in(
                all_episodes(),
            ).mass(90),
        );
        let r2 = insert_character(
            &mut characters,
            APICharacter::build("6", "R2-D2").is_droid().appeared_in(all_episodes()).mass(
                32,
            ).primary_function("Astromech".to_owned()),
        );
        let treepio = insert_character(
            &mut characters,
            APICharacter::build("7", "C-3PO").is_droid().appeared_in(all_episodes()).mass(
                75,
            ).primary_function("Protocol".to_owned()),
        );
        assert(luke == 0 && vader == 1 && han == 2 && leia == 3 && tarkin == 4 && r2 == 5 && treepio == 6);

        set_friends_at(&mut characters, luke, vec![leia, han, r2, treepio]);
        set_friends_at(&mut characters, leia, vec![luke, han, r2, treepio]);
        set_friends_at(&mut characters, han, vec![leia, luke, r2, treepio]);
        set_friends_at(&mut characters, r2, vec![luke, leia, han, treepio]);
        set_friends_at(&mut characters, treepio, vec![luke, han, leia, r2]);
        set_friends_at(&mut characters, tarkin, vec![vader]);
        set_friends_at(&mut characters, vader, vec![tarkin]);

        let mut planets = new_planet_slab(7);
        let tatooine = insert_planet(
            &mut planets,
            APIPlanet {
                id: "1".to_owned(),
                climate: "arid".to_owned(),
                diameter: 10465,
                gravity: "Standard".to_owned(),
                name: "Tatooine".to_owned(),
                population: 200000,
                rotation_period: 23,
                orbital_period: 304,
            },
        );
        let alderaan = insert_planet(
            &mut planets,
            APIPlanet {
                id: "2".to_owned(),
                climate: "arid".to_owned(),
                diameter: 10465,
                gravity: "Temperate".to_owned(),
                name: "Alderaan".to_owned(),
                population: 2000000000,
                rotation_period: 24,
                orbital_period: 364,
            },
        );
        assert(tatooine == 0 && alderaan == 1);

        set_home_planet_at(&mut characters, luke, tatooine);
        set_home_planet_at(&mut characters, vader, tatooine);
        set_home_planet_at(&mut characters, leia, alderaan);

        let r = StarWarsAPI {
            char_id_counter: 7,
            starship_id_counter: 5,
            planet_id_counter: 2,
            luke_idx: luke,
            r2d2_idx: r2,
            characters,
            starships,
            planets,
        };
        assert(r.wf());
        assert forall|i: int| 0 <= i < 7 implies r.character_records()[i] == seed_character(i) by {
            assert(r.character_records()[i].friends =~= seed_character(i).friends);
        }
        r
    }

    /// The saga-wide hero.
    pub fn get_saga_hero(&self) -> (r: APICharacter)
        requires
            self.wf(),
        ensures
            r@ == self.character_records()[self.saga_hero_slot()],
    {
        character_at(&self.characters, self.luke_idx).unwrap().duplicate()
    }

    /// The droid hero.
    pub fn get_r2d2(&self) -> (r: APICharacter)
        requires
            self.wf(),
        ensures
            r@ == self.character_records()[self.droid_hero_slot()],
    {
        character_at(&self.characters, self.r2d2_idx).unwrap().duplicate()
    }

    /// The hero of an episode: the saga hero for the Empire, the droid hero
    /// for the other two.
    pub fn get_hero(&self, episode: Episode) -> (r: APICharacter)
        requires
            self.wf(),
        ensures
            r@ == self.hero_of(Some(episode)),
    {
        match episode {
            Episode::Empire => self.get_saga_hero(),
            _ => self.get_r2d2(),
        }
    }

    /// The hero for an optional episode: the saga hero when the episode is
    /// absent or the Empire, the droid hero otherwise.
    pub open spec fn hero_of(&self, episode: Option<Episode>) -> CharacterView {
        match episode {
            None => self.character_records()[self.saga_hero_slot()],
            Some(Episode::Empire) => self.character_records()[self.saga_hero_slot()],
            Some(_) => self.character_records()[self.droid_hero_slot()],
        }
    }

    /// The first character whose id is `id`, if it is of the asked category.
    fn find_in_category(&self, id: &String, human: bool) -> (r: Option<APICharacter>)
        requires
            self.wf(),
        ensures
            opt_view(r) == lookup_in_category(self.character_records(), id@, human),
    {
        let n = self.char_id_counter;
        let ghost recs = self.character_records();
        let mut i: usize = 0;
        while i < n
            invariant
                self.wf(),
                n == self.char_id_counter,
                recs == self.character_records(),
                i <= n,
                first_with_id(recs.subrange(0, i as int), id@) is None,
            decreases n - i,
        {
            let c = character_at(&self.characters, i).unwrap();
            assert(recs.subrange(0, i + 1).drop_last() =~= recs.subrange(0, i as int));
            if c.id == *id {
                assert(first_with_id(recs.subrange(0, i + 1), id@) == Some(recs[i as int]));
                proof { lemma_first_with_id_prefix(recs, i as int + 1, id@); }
                if c.is_human == human {
                    return Some(c.duplicate());
                } else {
                    return None;
                }
            }
            i = i + 1;
        }
        assert(recs.subrange(0, n as int) =~= recs);
        None
    }

    /// The human whose id is `id`: the first character with that id, if it
    /// is a human.
    pub fn get_human(&self, id: String) -> (r: Option<APICharacter>)
        requires
            self.wf(),
        ensures
            opt_view(r) == lookup_in_category(self.character_records(), id@, true),
            r matches Some(c) ==> c.is_human,
    {
        self.find_in_category(&id, true)
    }

    /// The droid whose id is `id`: the first character with that id, if it
    /// is a droid.
    pub fn get_droid(&self, id: String) -> (r: Option<APICharacter>)
        requires
            self.wf(),
        ensures
            opt_view(r) == lookup_in_category(self.character_records(), id@, false),
            r matches Some(c) ==> !c.is_human,
    {
        self.find_in_category(&id, false)
    }

    /// All characters of one category, in slot order.
    fn all_in_category(&self, human: bool) -> (r: Vec<APICharacter>)
        requires
            self.wf(),
        ensures
            character_views(r@) == of_category(self.character_records(), human),
    {
        let n = self.char_id_counter;
        let ghost recs = self.character_records();
        let mut r: Vec<APICharacter> = Vec::new();
        let mut i: usize = 0;
        while i < n
            invariant
                self.wf(),
                n == self.char_id_counter,
                recs == self.character_records(),
                i <= n,
                character_views(r@) == of_category(recs.subrange(0, i as int), human),
            decreases n - i,
        {
            let c = character_at(&self.characters, i).unwrap();
            assert(recs.subrange(0, i + 1).drop_last() =~= recs.subrange(0, i as int));
            if c.is_human == human {
                let ghost before = r@;
                r.push(c.duplicate());
                assert(character_views(r@) =~= character_views(before).push(recs[i as int]));
            }
            i = i + 1;
        }
        assert(recs.subrange(0, n as int) =~= recs);
        r
    }

    /// All humans, in slot order.
    pub fn get_humans(&self) -> (r: Vec<APICharacter>)
        requires
            self.wf(),
        ensures
            character_views(r@) == of_category(self.character_records(), true),
    {
        self.all_in_category(true)
    }

    /// All droids, in slot order.
    pub fn get_droids(&self) -> (r: Vec<APICharacter>)
        requires
            self.wf(),
        ensures
            character_views(r@) == of_category(self.character_records(), false),
    {
        self.all_in_category(false)
    }

    /// The character in slot `idx`, if that slot was handed out.
    pub fn get_character(&self, idx: usize) -> (r: Option<APICharacter>)
        requires
            self.wf(),
        ensures
            opt_view(r) == at_slot(self.character_records(), idx),
    {
        match character_at(&self.characters, idx) {
            Some(c) => Some(c.duplicate()),
            None => None,
        }
    }

    /// The first starship whose id is `id`, if any.
    pub fn get_starship(&self, id: String) -> (r: Option<APIStarShip>)
        requires
            self.wf(),
        ensures
            opt_view(r) == first_starship_with_id(self.starship_records(), id@),
    {
        let n = self.starship_id_counter;
        let ghost recs = self.starship_records();
        let mut i: usize = 0;
        while i < n
            invariant
                self.wf(),
                n == self.starship_id_counter,
                recs == self.starship_records(),
                i <= n,
                first_starship_with_id(recs.subrange(0, i as int), id@) is None,
            decreases n - i,
        {
            let c = starship_at(&self.starships, i).unwrap();
            assert(recs.subrange(0, i + 1).drop_last() =~= recs.subrange(0, i as int));
            if c.id == id {
                proof { lemma_first_starship_prefix(recs, i as int + 1, id@); }
                return Some(c.duplicate());
            }
            i = i + 1;
        }
        assert(recs.subrange(0, n as int) =~= recs);
        None
    }

    /// The starship in slot `s_idx`, if that slot was handed out.
    pub fn get_starship_by_idx(&self, s_idx: usize) -> (r: Option<APIStarShip>)
        requires
            self.wf(),
        ensures
            opt_view(r) == at_slot(self.starship_records(), s_idx),
    {
        match starship_at(&self.starships, s_idx) {
            Some(c) => Some(c.duplicate()),
            None => None,
        }
    }

    /// The planet in slot `c_idx`, if that slot was handed out.
    pub fn get_planet_by_idx(&self, c_idx: usize) -> (r: Option<APIPlanet>)
        requires
            self.wf(),
        ensures
            opt_view(r) == at_slot(self.planet_records(), c_idx),
    {
        match planet_at(&self.planets, c_idx) {
            Some(c) => Some(c.duplicate()),
            None => None,
        }
    }
}

/// A match found in a prefix of `s` is the first match of all of `s`.
proof fn lemma_first_with_id_prefix(s: Seq<CharacterView>, n: int, id: Seq<char>)
    requires
        0 <= n <= s.len(),
        first_with_id(s.subrange(0, n), id) is Some,
    ensures
        first_with_id(s, id) == first_with_id(s.subrange(0, n), id),
    decreases s.len() - n,
{
    if n < s.len() {
        assert(s.subrange(0, n + 1).drop_last() =~= s.subrange(0, n));
        lemma_first_with_id_prefix(s, n + 1, id);
    } else {
        assert(s.subrange(0, n) =~= s);
    }
}

/// A match found in a prefix of `s` is the first match of all of `s`.
proof fn lemma_first_starship_prefix(s: Seq<StarShipView>, n: int, id: Seq<char>)
    requires
        0 <= n <= s.len(),
        first_starship_with_id(s.subrange(0, n), id) is Some,
    ensures
        first_starship_with_id(s, id) == first_starship_with_id(s.subrange(0, n), id),
    decreases s.len() - n,
{
    if n < s.len() {
        assert(s.subrange(0, n + 1).drop_last() =~= s.subrange(0, n));
        lemma_first_starship_prefix(s, n + 1, id);
    } else {
        assert(s.subrange(0, n) =~= s);
    }
}


/// In the seeded store, every slot the seed loader handed out resolves to the
/// record seeded there, and no other slot resolves to anything.
pub proof fn lemma_seeded_slots_resolve(api: StarWarsAPI, slot: usize)
    requires
        api.seeded(),
    ensures
        at_slot(api.character_records(), slot) == if slot < 7 {
            Some(seed_character(slot as int))
        } else {
            None
        },
        at_slot(api.starship_records(), slot) == if slot < 5 {
            Some(seed_starship(slot as int))
        } else {
            None
        },
        at_slot(api.planet_records(), slot) == if slot < 2 {
            Some(seed_planet(slot as int))
        } else {
            None
        },
{
}

/// The slots of the five friends of the rebel cluster.
pub open spec fn is_rebel_slot(i: int) -> bool {
    i == 0 || i == 2 || i == 3 || i == 5 || i == 6
}

/// In the seeded store the five rebels (Luke, Han, Leia, R2-D2, C-3PO) each
/// list exactly the four others as friends, and Vader and Tarkin list only
/// each other.
pub proof fn lemma_seeded_friends(api: StarWarsAPI)
    requires
        api.seeded(),
    ensures
        forall|a: int, b: int|
            #![trigger is_rebel_slot(a), is_rebel_slot(b)]
            is_rebel_slot(a) && is_rebel_slot(b) && a != b ==> api.character_records()[a].friends.contains(b as usize),
        forall|a: int| #[trigger] is_rebel_slot(a) ==> api.character_records()[a].friends.len() == 4,
        forall|a: int, k: int|
            is_rebel_slot(a) && 0 <= k < 4 ==> is_rebel_slot((#[trigger] api.character_records()[a].friends[k]) as int)
                && api.character_records()[a].friends[k] != a,
        api.character_records()[1].friends == seq![4usize],
        api.character_records()[4].friends == seq![1usize],
{
    let r = api.character_records();
    assert(r[1] == seed_character(1) && r[4] == seed_character(4));
    assert(r[0] == seed_character(0));
    let f0 = seq![3usize, 2, 5, 6];
    assert(r[0].friends == f0);
    assert(f0[0] == 3 && f0[1] == 2 && f0[2] == 5 && f0[3] == 6);
    assert(r[2] == seed_character(2));
    let f2 = seq![3usize, 0, 5, 6];
    assert(r[2].friends == f2);
    assert(f2[0] == 3 && f2[1] == 0 && f2[2] == 5 && f2[3] == 6);
    assert(r[3] == seed_character(3));
    let f3 = seq![0usize, 2, 5, 6];
    assert(r[3].friends == f3);
    assert(f3[0] == 0 && f3[1] == 2 && f3[2] == 5 && f3[3] == 6);
    assert(r[5] == seed_character(5));
    let f5 = seq![0usize, 3, 2, 6];
    assert(r[5].friends == f5);
    assert(f5[0] == 0 && f5[1] == 3 && f5[2] == 2 && f5[3] == 6);
    assert(r[6] == seed_character(6));
    let f6 = seq![0usize, 2, 3, 5];
    assert(r[6].friends == f6);
    assert(f6[0] == 0 && f6[1] == 2 && f6[2] == 3 && f6[3] == 5);
}

/// In the seeded store the humans are Luke, Vader, Han, Leia and Tarkin and
/// the droids R2-D2 and C-3PO, each in slot order.
pub proof fn lemma_seeded_categories(api: StarWarsAPI)
    requires
        api.seeded(),
    ensures
        of_category(api.character_records(), true) == seq![
            seed_character(0),
            seed_character(1),
            seed_character(2),
            seed_character(3),
            seed_character(4),
        ],
        of_category(api.character_records(), false) == seq![seed_character(5), seed_character(6)],
{
    let r = api.character_records();
    let s = seq![
        seed_character(0),
        seed_character(1),
        seed_character(2),
        seed_character(3),
        seed_character(4),
        seed_character(5),
        seed_character(6),
    ];
    assert(r =~= s);
    assert(s.drop_last().drop_last().drop_last().drop_last().drop_last().drop_last().drop_last() =~= Seq::<
        CharacterView,
    >::empty());
    reveal_with_fuel(of_category, 8);
    assert(of_category(s, true) =~= seq![
        seed_character(0),
        seed_character(1),
        seed_character(2),
        seed_character(3),
        seed_character(4),
    ]);
    assert(of_category(s, false) =~= seq![seed_character(5), seed_character(6)]);
}

/// A lookup by an id that no record carries finds nothing.
pub proof fn lemma_unknown_id_absent(s: Seq<CharacterView>, id: Seq<char>)
    requires
        forall|i: int| 0 <= i < s.len() ==> (#[trigger] s[i]).id != id,
    ensures
        first_with_id(s, id) is None,
        lookup_in_category(s, id, true) is None,
        lookup_in_category(s, id, false) is None,
    decreases s.len(),
{
    if s.len() > 0 {
        lemma_unknown_id_absent(s.drop_last(), id);
    }
}

/// A starship lookup by an id that no record carries finds nothing.
pub proof fn lemma_unknown_starship_absent(s: Seq<StarShipView>, id: Seq<char>)
    requires
        forall|i: int| 0 <= i < s.len() ==> (#[trigger] s[i]).id != id,
    ensures
        first_starship_with_id(s, id) is None,
    decreases s.len(),
{
    if s.len() > 0 {
        lemma_unknown_starship_absent(s.drop_last(), id);
    }
}

/// In the seeded store, an id other than the seeded ones finds no human, no
/// droid and no starship.
pub proof fn lemma_seeded_unknown_id(api: StarWarsAPI, id: Seq<char>)
    requires
        api.seeded(),
        forall|i: int| 0 <= i < 7 ==> (#[trigger] seed_character(i)).id != id,
    ensures
        lookup_in_category(api.character_records(), id, true) is None,
        lookup_in_category(api.character_records(), id, false) is None,
        id != "1"@ && id != "2"@ && id != "3"@ && id != "4"@ && id != "5"@
            ==> first_starship_with_id(api.starship_records(), id) is None,
{
    let r = api.character_records();
    assert forall|i: int| 0 <= i < r.len() implies (#[trigger] r[i]).id != id by {
        assert(seed_character(i).id != id);
    }
    lemma_unknown_id_absent(r, id);
    if id != "1"@ && id != "2"@ && id != "3"@ && id != "4"@ && id != "5"@ {
        let t = api.starship_records();
        assert forall|i: int| 0 <= i < t.len() implies (#[trigger] t[i]).id != id by {
            assert(t[i] == seed_starship(i));
        }
        lemma_unknown_starship_absent(t, id);
    }
}

/// In the seeded store the hero for the Empire and for no episode is Luke
/// Skywalker, a human; the hero for the two other episodes is R2-D2, a droid.
/// So the hero takes exactly two values.
pub proof fn lemma_seeded_hero(api: StarWarsAPI)
    requires
        api.seeded(),
    ensures
        api.hero_of(Some(Episode::Empire)) == api.hero_of(None),
        api.hero_of(None) == seed_character(0),
        api.hero_of(Some(Episode::NewHope)) == api.hero_of(Some(Episode::Jedi)),
        api.hero_of(Some(Episode::NewHope)) == seed_character(5),
        api.hero_of(None).is_human,
        !api.hero_of(Some(Episode::NewHope)).is_human,
        api.hero_of(None) != api.hero_of(Some(Episode::NewHope)),
{
}

} // verus!
