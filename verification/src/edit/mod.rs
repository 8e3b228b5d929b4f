//! Editing blueprints.
//!
//! [`EditBlueprint`] holds a blueprint and offers the edits: it replaces
//! items, recipes and buildings, and it counts what the blueprint holds.

use crate::blueprint::{Blueprint, BlueprintView};
use crate::data::enums::{BuildingClass, DSPItem, DSPRecipe};
use crate::data::visit::{Pass, Visit};
use crate::edit::laws::{
    blueprint_with_buildings, blueprint_with_items, blueprint_with_recipes,
    lemma_buildings_in_blueprint, lemma_counting_changes_nothing, lemma_items_in_blueprint,
    lemma_recipes_in_blueprint, lemma_replace_building_keeps_wf, lemma_replace_item_keeps_wf,
    lemma_replace_recipe_keeps_wf,
};
use crate::edit::replace::{
    map_using_map, replaced, Replace, ReplaceBuilding, ReplaceItem, ReplaceRecipe,
};
use crate::edit::stats::GetStats;
use crate::error::Error;
use crate::stats::StatsView;
use crate::transform::{percent_encoded, url_decoded};
use vstd::prelude::*;
use vstd::utf8::encode_utf8;

pub mod laws;
pub mod replace;
pub mod stats;

verus! {

/// Whether the pairs put for each building a building of its class. Where a
/// building stands first in several pairs, only the last of them counts.
pub open spec fn all_valid(map: Seq<(DSPItem, DSPItem)>) -> bool {
    forall|k: int|
        0 <= k < map.len() ==> BuildingClass::valid_replacement(
            (#[trigger] map[k]).0,
            replaced(map, map[k].0),
        )
}

/// The pairs of recipes that stand for pairs of items: for each pair of items
/// that both have a recipe of their name, the pair of those recipes, in the
/// order of the pairs of items.
pub open spec fn recipe_pairs(pairs: Seq<(DSPItem, DSPItem)>) -> Seq<(DSPRecipe, DSPRecipe)>
    decreases pairs.len(),
{
    if pairs.len() == 0 {
        Seq::empty()
    } else {
        let before = recipe_pairs(pairs.drop_last());
        match (DSPRecipe::of_item(pairs.last().0), DSPRecipe::of_item(pairs.last().1)) {
            (Some(a), Some(b)) => before.push((a, b)),
            _ => before,
        }
    }
}

/// A blueprint that is being edited.
pub struct EditBlueprint(pub Blueprint);

impl EditBlueprint {
    /// Takes a blueprint to edit it.
    pub fn new(bp: Blueprint) -> (r: Self)
        ensures
            r.0 == bp,
    {
        Self(bp)
    }

    /// The text beside the icons, with its percent escapes resolved.
    pub fn get_icon_text(&self) -> (r: Result<String, Error>)
        ensures
            match r {
                Ok(s) => url_decoded(self.0@.icon_text) == Some(s@),
                Err(e) => url_decoded(self.0@.icon_text) is None && e == Error::BadEscape,
            },
    {
        self.0.get_icon_text()
    }

    /// Sets the text beside the icons. The text that was set is the one
    /// that is read back.
    pub fn set_icon_text(&mut self, text: &str)
        ensures
            final(self).0@ == (BlueprintView {
                icon_text: percent_encoded(encode_utf8(text@)),
                ..old(self).0@
            }),
            url_decoded(final(self).0@.icon_text) == Some(text@),
    {
        self.0.set_icon_text(text);
    }

    /// The description, with its percent escapes resolved.
    pub fn get_description(&self) -> (r: Result<String, Error>)
        ensures
            match r {
                Ok(s) => url_decoded(self.0@.desc) == Some(s@),
                Err(e) => url_decoded(self.0@.desc) is None && e == Error::BadEscape,
            },
    {
        self.0.get_description()
    }

    /// What the blueprint holds, counted and written as text. The blueprint
    /// stays as it is.
    pub fn info(&mut self) -> (r: Result<String, Error>)
        ensures
            r matches Ok(s) && s@ == <Blueprint as Visit<GetStats>>::visited(
                StatsView::empty(),
                old(self).0@,
            ).0.text(),
            final(self).0@ == old(self).0@,
    {
        proof {
            lemma_counting_changes_nothing(StatsView::empty(), self.0@);
        }
        let mut stats = GetStats::new();
        stats.visit_blueprint(&mut self.0);
        Ok(stats.0.to_text())
    }

    /// Puts items for items, all through the blueprint: in its icons, in
    /// the filters of its buildings, in the wares of its stations and in the
    /// labels of its belts. This is what the pass that replaces items makes
    /// of the blueprint when it visits it. A well-formed blueprint stays
    /// well formed.
    pub fn replace_item(&mut self, map: Vec<(DSPItem, DSPItem)>)
        ensures
            final(self).0@ == blueprint_with_items(map@, old(self).0@),
            final(self).0@ == <Blueprint as Visit<ReplaceItem>>::visited(map@, old(self).0@).1,
            old(self).0@.wf() ==> final(self).0@.wf(),
    {
        proof {
            lemma_items_in_blueprint(map@, self.0@);
            if self.0@.wf() {
                lemma_replace_item_keeps_wf(map@, self.0@);
            }
        }
        let m = map_using_map(map);
        let mut r = ReplaceItem::new(&m);
        r.visit_blueprint(&mut self.0);
    }

    /// Puts recipes for recipes, all through the blueprint: in its icons,
    /// in what its buildings make and in the labels of its belts. This is
    /// what the pass that replaces recipes makes of the blueprint when it
    /// visits it. A well-formed blueprint stays well formed.
    pub fn replace_recipe(&mut self, map: Vec<(DSPRecipe, DSPRecipe)>)
        ensures
            final(self).0@ == blueprint_with_recipes(map@, old(self).0@),
            final(self).0@ == <Blueprint as Visit<ReplaceRecipe>>::visited(map@, old(self).0@).1,
            old(self).0@.wf() ==> final(self).0@.wf(),
    {
        proof {
            lemma_recipes_in_blueprint(map@, self.0@);
            if self.0@.wf() {
                lemma_replace_recipe_keeps_wf(map@, self.0@);
            }
        }
        let m = map_using_map(map);
        let mut r = ReplaceRecipe::new(&m);
        r.visit_blueprint(&mut self.0);
    }

    /// The pairs of recipes that stand for pairs of items.
    pub fn recipes_of(r: &Vec<(DSPItem, DSPItem)>) -> (out: Vec<(DSPRecipe, DSPRecipe)>)
        ensures
            out@ == recipe_pairs(r@),
    {
        let mut out: Vec<(DSPRecipe, DSPRecipe)> = Vec::new();
        let n = r.len();
        let mut i: usize = 0;
        while i < n
            invariant
                i <= n,
                n == r@.len(),
                out@ == recipe_pairs(r@.take(i as int)),
            decreases n - i,
        {
            let (k, v) = r[i];
            proof {
                let now = r@.take(i + 1);
                assert(now.drop_last() =~= r@.take(i as int));
            }
            match (DSPRecipe::for_item(&k), DSPRecipe::for_item(&v)) {
                (Some(a), Some(b)) => {
                    out.push((a, b));
                },
                _ => {},
            }
            i += 1;
        }
        assert(r@.take(n as int) =~= r@);
        out
    }

    /// Puts items for items, and for the recipes of the first the recipes of
    /// the second, where both have a recipe of their name. A well-formed
    /// blueprint stays well formed.
    pub fn replace_both(&mut self, r: Vec<(DSPItem, DSPItem)>)
        ensures
            old(self).0@.wf() ==> final(self).0@.wf(),
            final(self).0@ == blueprint_with_recipes(
                recipe_pairs(r@),
                blueprint_with_items(r@, old(self).0@),
            ),
            final(self).0@ == <Blueprint as Visit<ReplaceRecipe>>::visited(
                recipe_pairs(r@),
                <Blueprint as Visit<ReplaceItem>>::visited(r@, old(self).0@).1,
            ).1,
    {
        let r2 = Self::recipes_of(&r);
        self.replace_item(r);
        self.replace_recipe(r2);
    }

    /// The first building for which the pairs put one that is not of its
    /// class, with what they put for it, if there is such a building.
    pub fn first_invalid(map: &Replace<DSPItem>) -> (r: Option<(DSPItem, DSPItem)>)
        ensures
            match r {
                Some((i, o)) => {
                    &&& o == replaced(map@, i)
                    &&& !BuildingClass::valid_replacement(i, o)
                    &&& exists|k: int| 0 <= k < map@.len() && (#[trigger] map@[k]).0 == i
                },
                None => all_valid(map@),
            },
    {
        let pairs = map.pairs();
        let n = pairs.len();
        let mut k: usize = 0;
        while k < n
            invariant
                k <= n,
                n == map@.len(),
                pairs@ == map@,
                forall|j: int|
                    0 <= j < k ==> BuildingClass::valid_replacement(
                        (#[trigger] map@[j]).0,
                        replaced(map@, map@[j].0),
                    ),
            decreases n - k,
        {
            let i = pairs[k].0;
            let o = map.apply(i);
            if !BuildingClass::replacement_is_valid(i, o) {
                return Some((i, o));
            }
            k += 1;
        }
        None
    }

    /// Puts buildings for buildings, all through the blueprint.
    ///
    /// The pairs must put for each building one of its class: a belt for a
    /// belt, an assembler for an assembler. Where they do not, the call
    /// fails with the first building for which they do not, and the
    /// blueprint stays as it is. A well-formed blueprint stays well formed.
    pub fn replace_building(&mut self, map: Vec<(DSPItem, DSPItem)>) -> (r: Result<(), Error>)
        ensures
            old(self).0@.wf() ==> final(self).0@.wf(),
            match r {
                Ok(()) => {
                    &&& all_valid(map@)
                    &&& final(self).0@ == blueprint_with_buildings(map@, old(self).0@)
                    &&& final(self).0@ == <Blueprint as Visit<ReplaceBuilding>>::visited(
                        map@,
                        old(self).0@,
                    ).1
                },
                Err(e) => !all_valid(map@) && final(self).0@ == old(self).0@ && (
                e matches Error::InvalidReplacement(i, o) && exists|k: int|
                    0 <= k < map@.len() && (#[trigger] map@[k]).0.id() == i && replaced(
                        map@,
                        map@[k].0,
                    ).id() == o && !BuildingClass::valid_replacement(
                        map@[k].0,
                        replaced(map@, map@[k].0),
                    )),
            },
    {
        let m = map_using_map(map);
        match Self::first_invalid(&m) {
            Some((i, o)) => {
                return Err(Error::InvalidReplacement(i.to_u16(), o.to_u16()));
            },
            None => {},
        }
        proof {
            lemma_buildings_in_blueprint(map@, self.0@);
            if self.0@.wf() {
                lemma_replace_building_keeps_wf(map@, self.0@);
            }
        }
        let mut r = ReplaceBuilding::new(&m);
        r.visit_blueprint(&mut self.0);
        Ok(())
    }
}

} // verus!
