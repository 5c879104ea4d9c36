use vstd::prelude::*;

use crate::data::{
    first_starship_with_id, lookup_in_category, of_category, opt_view,
    CharacterView, StarWarsAPI,
};
use crate::models::{presented, Character, Droid, Episode, Human, StarShip};

verus! {

/// The presented form of an optional record.
pub open spec fn opt_presented(o: Option<CharacterView>) -> Option<CharacterView> {
    match o {
        Some(c) => Some(presented(c)),
        None => None,
    }
}

/// The presented forms of a sequence of records.
pub open spec fn all_presented(s: Seq<CharacterView>) -> Seq<CharacterView> {
    s.map_values(|c: CharacterView| presented(c))
}

/// The views of a sequence of humans.
pub open spec fn human_views(v: Seq<Human>) -> Seq<CharacterView> {
    v.map_values(|h: Human| h@)
}

/// The views of a sequence of droids.
pub open spec fn droid_views(v: Seq<Droid>) -> Seq<CharacterView> {
    v.map_values(|d: Droid| d@)
}

/// The query operations.
pub struct QueryRoot;

impl QueryRoot {
    /// The hero of an episode; the saga hero when no episode is given.
    pub fn hero(&self, api: &StarWarsAPI, episode: Option<Episode>) -> (r: Character)
        requires
            api.wf(),
        ensures
            r@ == presented(api.hero_of(episode)),
    {
        let c = match episode {
            None => api.get_saga_hero(),
            Some(ep) => api.get_hero(ep),
        };
        Character::from(c)
    }

    /// The human with the given id, if there is one.
    pub fn human(&self, api: &StarWarsAPI, id: String) -> (r: Option<Human>)
        requires
            api.wf(),
        ensures
            opt_view(r) == opt_presented(lookup_in_category(api.character_records(), id@, true)),
    {
        match api.get_human(id) {
            Some(c) => Some(Human::from(c)),
            None => None,
        }
    }

    /// The droid with the given id, if there is one.
    pub fn droid(&self, api: &StarWarsAPI, id: String) -> (r: Option<Droid>)
        requires
            api.wf(),
        ensures
            opt_view(r) == opt_presented(lookup_in_category(api.character_records(), id@, false)),
    {
        match api.get_droid(id) {
            Some(c) => Some(Droid::from(c)),
            None => None,
        }
    }

    /// The starship with the given id, if there is one.
    pub fn starship(&self, api: &StarWarsAPI, id: String) -> (r: Option<StarShip>)
        requires
            api.wf(),
        ensures
            opt_view(r) == first_starship_with_id(api.starship_records(), id@),
    {
        match api.get_starship(id) {
            Some(s) => Some(StarShip::from(s)),
            None => None,
        }
    }

    /// All humans, in slot order.
    pub fn humans(&self, api: &StarWarsAPI) -> (r: Vec<Human>)
        requires
            api.wf(),
        ensures
            human_views(r@) == all_presented(of_category(api.character_records(), true)),
    {
        let found = api.get_humans();
        let ghost cats = of_category(api.character_records(), true);
        proof {
            lemma_of_category_is(api.character_records(), true);
        }
        let mut r: Vec<Human> = Vec::new();
        let mut i: usize = 0;
        while i < found.len()
            invariant
                i <= found@.len(),
                found@.len() == cats.len(),
                forall|j: int| 0 <= j < cats.len() ==> #[trigger] found@[j]@ == cats[j],
                forall|j: int| 0 <= j < cats.len() ==> (#[trigger] cats[j]).is_human,
                human_views(r@) == all_presented(cats.subrange(0, i as int)),
            decreases found@.len() - i,
        {
            let c = found[i].duplicate();
            let x = Human::from(c);
            assert(x@ == presented(cats[i as int]));
            let ghost before = r@;
            r.push(x);
            assert(human_views(r@) =~= human_views(before).push(x@));
            assert(all_presented(cats.subrange(0, i + 1)) =~= all_presented(cats.subrange(0, i as int)).push(
                presented(cats[i as int]),
            ));
            i = i + 1;
            assert(human_views(r@) =~= all_presented(cats.subrange(0, i as int)));
        }
        assert(cats.subrange(0, cats.len() as int) =~= cats);
        r
    }

    /// All droids, in slot order.
    pub fn droids(&self, api: &StarWarsAPI) -> (r: Vec<Droid>)
        requires
            api.wf(),
        ensures
            droid_views(r@) == all_presented(of_category(api.character_records(), false)),
    {
        let found = api.get_droids();
        let ghost cats = of_category(api.character_records(), false);
        proof {
            lemma_of_category_is(api.character_records(), false);
        }
        let mut r: Vec<Droid> = Vec::new();
        let mut i: usize = 0;
        while i < found.len()
            invariant
                i <= found@.len(),
                found@.len() == cats.len(),
                forall|j: int| 0 <= j < cats.len() ==> #[trigger] found@[j]@ == cats[j],
                forall|j: int| 0 <= j < cats.len() ==> !(#[trigger] cats[j]).is_human,
                droid_views(r@) == all_presented(cats.subrange(0, i as int)),
            decreases found@.len() - i,
        {
            let c = found[i].duplicate();
            let x = Droid::from(c);
            assert(x@ == presented(cats[i as int]));
            let ghost before = r@;
            r.push(x);
            assert(droid_views(r@) =~= droid_views(before).push(x@));
            assert(all_presented(cats.subrange(0, i + 1)) =~= all_presented(cats.subrange(0, i as int)).push(
                presented(cats[i as int]),
            ));
            i = i + 1;
            assert(droid_views(r@) =~= all_presented(cats.subrange(0, i as int)));
        }
        assert(cats.subrange(0, cats.len() as int) =~= cats);
        r
    }
}

/// Every record kept for a category is of that category.
pub proof fn lemma_of_category_is(s: Seq<CharacterView>, human: bool)
    ensures
        forall|j: int| 0 <= j < of_category(s, human).len() ==> (#[trigger] of_category(s, human)[j]).is_human == human,
    decreases s.len(),
{
    if s.len() > 0 {
        lemma_of_category_is(s.drop_last(), human);
    }
}

/// The mutation operations.
pub struct MutationRoot;

impl MutationRoot {
    /// A credit transfer. It is a stub: it changes nothing and always
    /// reports success.
    pub fn transact(&self, from_user_id: String, to_user_id: String, amount: usize) -> (r: Result<bool, String>)
        ensures
            r matches Ok(true),
    {
        Ok(true)
    }
}

} // verus!
