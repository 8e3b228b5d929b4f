//! The pass that counts what a blueprint holds.

use crate::blueprint::{Blueprint, BlueprintView};
use crate::data::belt::Belt;
use crate::data::blueprint::{BlueprintData, BlueprintDataView};
use crate::data::building::{Building, BuildingView};
use crate::data::enums::{DSPItem, DSPRecipe};
use crate::data::station::{Station, StationSlots, StationStorage, StationView};
use crate::data::visit::Visitor;
use crate::stats::{Stats, StatsView};
use vstd::prelude::*;

verus! {

/// The pass that counts the buildings of a blueprint, what they make, and
/// the wares of its stations. It changes nothing. What the catalog does not
/// hold is not counted.
pub struct GetStats(pub Stats);

impl GetStats {
    pub fn new() -> (r: Self)
        ensures
            r.state() == StatsView::empty(),
    {
        Self(Stats::new())
    }
}

impl Visitor for GetStats {
    type State = StatsView;

    open spec fn state(&self) -> StatsView {
        self.0@
    }

    open spec fn at_blueprint(s: Self::State, v: BlueprintView) -> (Self::State, BlueprintView) {
        (s, v)
    }

    open spec fn at_blueprint_data(s: Self::State, v: BlueprintDataView) -> (
        Self::State,
        BlueprintDataView,
    ) {
        (s, v)
    }

    /// The building is counted, and so is what it makes.
    open spec fn at_building(s: Self::State, v: BuildingView) -> (Self::State, BuildingView) {
        let s1 = match DSPItem::of_id(v.header.item_id) {
            Some(b) => s.with_building(b),
            None => s,
        };
        let s2 = match DSPRecipe::of_id(v.header.recipe_id) {
            Some(r) => s1.with_recipe(r),
            None => s1,
        };
        (s2, v)
    }

    open spec fn at_station(s: Self::State, v: StationView) -> (Self::State, StationView) {
        (s, v)
    }

    /// The ware is counted.
    open spec fn at_station_storage(s: Self::State, v: StationStorage) -> (
        Self::State,
        StationStorage,
    ) {
        if v.item_id <= 0xffff {
            match DSPItem::of_id(v.item_id as u16) {
                Some(i) => (s.with_station_ware(i), v),
                None => (s, v),
            }
        } else {
            (s, v)
        }
    }

    open spec fn at_station_slots(s: Self::State, v: StationSlots) -> (Self::State, StationSlots) {
        (s, v)
    }

    open spec fn at_belt(s: Self::State, v: Belt) -> (Self::State, Belt) {
        (s, v)
    }

    fn on_blueprint(&mut self, v: &mut Blueprint) {
    }

    fn on_blueprint_data(&mut self, v: &mut BlueprintData) {
    }

    fn on_building(&mut self, v: &mut Building) {
        if let Ok(b) = DSPItem::try_from(v.header.item_id) {
            self.0.add_building(b);
        }
        if let Ok(b) = DSPRecipe::try_from(v.header.recipe_id) {
            self.0.add_recipe(b);
        }
    }

    fn on_station(&mut self, v: &mut Station) {
    }

    fn on_station_storage(&mut self, v: &mut StationStorage) {
        if v.item_id <= 0xffff {
            if let Ok(b) = DSPItem::try_from(v.item_id as u16) {
                self.0.add_station_ware(b);
            }
        }
    }

    fn on_station_slots(&mut self, v: &mut StationSlots) {
    }

    fn on_belt(&mut self, v: &mut Belt) {
    }
}

} // verus!
