//! The passes that put one thing for another: items, recipes, buildings.
//!
//! A number that the catalog does not hold stands for a thing that this
//! library does not know. Every pass leaves such a number as it is.

use crate::blueprint::{Blueprint, BlueprintView};
use crate::data::belt::Belt;
use crate::data::blueprint::{BlueprintData, BlueprintDataView};
use crate::data::building::{Building, BuildingHeader, BuildingView};
use crate::data::enums::{BPModel, DSPIcon, DSPItem, DSPRecipe};
use crate::data::station::{Station, StationSlots, StationStorage, StationView};
use crate::data::traits::DSPEnum;
use crate::data::visit::Visitor;
use crate::error::Error;
use std::collections::HashMap;
use vstd::prelude::*;

verus! {

/// What is put for what: pairs of a thing and the thing that replaces it.
/// Where a thing stands first in several pairs, the last of them counts.
///
/// The pairs are kept as they were given, and beside them a table from the
/// number of a thing to the number of the thing that is put for it.
pub struct Replace<T: DSPEnum> {
    pairs: Vec<(T, T)>,
    numbers: HashMap<u16, u16>,
}

/// What the pairs put for a thing: the second of the last pair that the
/// thing stands first in, or the thing itself.
pub open spec fn replaced<T>(pairs: Seq<(T, T)>, x: T) -> T
    decreases pairs.len(),
{
    if pairs.len() == 0 {
        x
    } else if pairs.last().0 == x {
        pairs.last().1
    } else {
        replaced(pairs.drop_last(), x)
    }
}

/// Whether a table of numbers answers as the pairs do: it holds the number
/// of each thing that the pairs put something for, with the number of what
/// is put for it.
pub open spec fn answers<T: DSPEnum>(numbers: Map<u16, u16>, pairs: Seq<(T, T)>) -> bool {
    forall|x: T|
        match numbers.get(#[trigger] x.number()) {
            Some(n) => replaced(pairs, x).number() == n,
            None => replaced(pairs, x) == x,
        }
}

impl<T: DSPEnum> View for Replace<T> {
    type V = Seq<(T, T)>;

    closed spec fn view(&self) -> Seq<(T, T)> {
        self.pairs@
    }
}

impl<T: DSPEnum> Replace<T> {
    /// The table answers as the pairs do.
    #[verifier::type_invariant]
    closed spec fn table_answers(self) -> bool {
        answers(self.numbers@, self.pairs@)
    }

    /// What is put for a thing.
    pub fn apply(&self, from: T) -> (r: T)
        ensures
            r == replaced(self@, from),
    {
        broadcast use vstd::std_specs::hash::group_hash_axioms;

        proof {
            use_type_invariant(self);
        }
        let key = from.underlying();
        match self.numbers.get(&key) {
            None => from,
            Some(n) => match T::from_underlying(*n) {
                Some(to) => {
                    proof {
                        T::lemma_number_injective(to, replaced(self@, from));
                    }
                    to
                },
                None => from,
            },
        }
    }

    /// The pairs.
    pub fn pairs(&self) -> (r: &Vec<(T, T)>)
        ensures
            r@ == self@,
    {
        &self.pairs
    }
}

/// Makes of a list of pairs what is put for what.
pub fn map_using_map<T: DSPEnum>(m: Vec<(T, T)>) -> (r: Replace<T>)
    ensures
        r@ == m@,
{
    broadcast use vstd::std_specs::hash::group_hash_axioms;

    let mut numbers: HashMap<u16, u16> = HashMap::new();
    let n = m.len();
    let mut i: usize = 0;
    while i < n
        invariant
            i <= n,
            n == m@.len(),
            answers(numbers@, m@.take(i as int)),
        decreases n - i,
    {
        let (from, to) = m[i];
        let ghost before = numbers@;
        numbers.insert(from.underlying(), to.underlying());
        proof {
            let pairs = m@.take(i + 1);
            assert(pairs.drop_last() =~= m@.take(i as int));
            assert forall|x: T|
                match numbers@.get(#[trigger] x.number()) {
                    Some(n) => replaced(pairs, x).number() == n,
                    None => replaced(pairs, x) == x,
                } by {
                if x.number() == from.number() {
                    T::lemma_number_injective(x, from);
                } else {
                    assert(before.get(x.number()) == numbers@.get(x.number()));
                }
            }
        }
        i += 1;
    }
    assert(m@.take(n as int) =~= m@);
    Replace { pairs: m, numbers }
}

/// The item number that is put for an item number.
pub open spec fn item_id_replaced(m: Seq<(DSPItem, DSPItem)>, id: u16) -> u16 {
    match DSPItem::of_id(id) {
        Some(i) => replaced(m, i).id(),
        None => id,
    }
}

/// The item number that is put for an item number that is kept in 32 bits.
pub open spec fn wide_item_id_replaced(m: Seq<(DSPItem, DSPItem)>, id: u32) -> u32 {
    if id > 0xffff {
        id
    } else {
        item_id_replaced(m, id as u16) as u32
    }
}

/// The icon number that is put for an icon number, where items are
/// replaced: only the icon of an item changes.
pub open spec fn item_icon_replaced(m: Seq<(DSPItem, DSPItem)>, n: u32) -> u32 {
    match DSPIcon::decode(n) {
        Ok(DSPIcon::Item(i)) => DSPIcon::Item(replaced(m, i)).number(),
        _ => n,
    }
}

/// The recipe number that is put for a recipe number.
pub open spec fn recipe_id_replaced(m: Seq<(DSPRecipe, DSPRecipe)>, id: u16) -> u16 {
    match DSPRecipe::of_id(id) {
        Some(r) => replaced(m, r).id(),
        None => id,
    }
}

/// The icon number that is put for an icon number, where recipes are
/// replaced: only the icon of a recipe changes.
pub open spec fn recipe_icon_replaced(m: Seq<(DSPRecipe, DSPRecipe)>, n: u32) -> u32 {
    match DSPIcon::decode(n) {
        Ok(DSPIcon::Recipe(r)) => DSPIcon::Recipe(replaced(m, r)).number(),
        _ => n,
    }
}

/// The item number that is put for an item number.
pub fn ri(s: &Replace<DSPItem>, t: u16) -> (r: u16)
    ensures
        r == item_id_replaced(s@, t),
{
    let my_item = match DSPItem::try_from(t) {
        Ok(l) => l,
        Err(_) => {
            return t;
        },
    };
    let new = s.apply(my_item);
    new.to_u16()
}

/// The pass that puts items for items: in the icons of the blueprint, in the
/// labels of belts, in the filters of buildings and in the wares of
/// stations.
pub struct ReplaceItem<'a>(pub &'a Replace<DSPItem>);

impl<'a> ReplaceItem<'a> {
    pub fn new(f: &'a Replace<DSPItem>) -> (r: Self)
        ensures
            r.state() == f@,
    {
        Self(f)
    }

    /// The item number that is put for an item number.
    pub fn replace_item(&self, t: u16) -> (r: u16)
        ensures
            r == item_id_replaced(self.state(), t),
    {
        ri(self.0, t)
    }

    /// The item number that is put for an item number that is kept in 32
    /// bits. A number that 16 bits do not hold is no item number.
    pub fn replace_wide_item(&self, t: u32) -> (r: u32)
        ensures
            r == wide_item_id_replaced(self.state(), t),
    {
        if t > 0xffff {
            t
        } else {
            ri(self.0, t as u16) as u32
        }
    }

    /// The icon number that is put for an icon number.
    pub fn replace_icon(&self, t: u32) -> (r: u32)
        ensures
            r == item_icon_replaced(self.state(), t),
    {
        match DSPIcon::try_from(t) {
            Ok(DSPIcon::Item(i)) => {
                let new = self.0.apply(i);
                DSPIcon::Item(new).to_u32()
            },
            Ok(_) => t,
            Err(_) => t,
        }
    }

    /// **The ware of a station whose number the catalog does not hold stays
    /// as it is**, whatever is put for what.
    pub proof fn lemma_unknown_ware_kept(m: Seq<(DSPItem, DSPItem)>, v: StationStorage)
        requires
            v.item_id > 0xffff || DSPItem::of_id(v.item_id as u16) is None,
        ensures
            Self::at_station_storage(m, v) == (m, v),
    {
    }

    /// A ware of a station whose item is put for itself stays as it is.
    pub proof fn lemma_same_ware_kept(m: Seq<(DSPItem, DSPItem)>, v: StationStorage)
        requires
            v.item_id <= 0xffff,
            DSPItem::of_id(v.item_id as u16) matches Some(i) && replaced(m, i) == i,
        ensures
            Self::at_station_storage(m, v) == (m, v),
    {
    }
}

impl<'a> Visitor for ReplaceItem<'a> {
    type State = Seq<(DSPItem, DSPItem)>;

    open spec fn state(&self) -> Seq<(DSPItem, DSPItem)> {
        self.0@
    }

    /// Each of the five icons is replaced.
    open spec fn at_blueprint(s: Self::State, v: BlueprintView) -> (Self::State, BlueprintView) {
        (
            s,
            BlueprintView {
                icons: Seq::new(v.icons.len(), |k: int| item_icon_replaced(s, v.icons[k])),
                ..v
            },
        )
    }

    open spec fn at_blueprint_data(s: Self::State, v: BlueprintDataView) -> (
        Self::State,
        BlueprintDataView,
    ) {
        (s, v)
    }

    /// The filter of the building is replaced.
    open spec fn at_building(s: Self::State, v: BuildingView) -> (Self::State, BuildingView) {
        (
            s,
            BuildingView {
                header: BuildingHeader {
                    filter_id: item_id_replaced(s, v.header.filter_id),
                    ..v.header
                },
                ..v
            },
        )
    }

    open spec fn at_station(s: Self::State, v: StationView) -> (Self::State, StationView) {
        (s, v)
    }

    /// The ware is replaced.
    open spec fn at_station_storage(s: Self::State, v: StationStorage) -> (
        Self::State,
        StationStorage,
    ) {
        (s, StationStorage { item_id: wide_item_id_replaced(s, v.item_id), ..v })
    }

    open spec fn at_station_slots(s: Self::State, v: StationSlots) -> (Self::State, StationSlots) {
        (s, v)
    }

    /// The icon of the label is replaced.
    open spec fn at_belt(s: Self::State, v: Belt) -> (Self::State, Belt) {
        (s, Belt { label: item_icon_replaced(s, v.label), ..v })
    }

    fn on_blueprint(&mut self, v: &mut Blueprint) {
        let mut k: usize = 0;
        while k < 5
            invariant
                k <= 5,
                self.state() == old(self).state(),
                v@ == (BlueprintView { icons: v.icons@, ..old(v)@ }),
                forall|j: int|
                    0 <= j < k ==> v.icons@[j] == item_icon_replaced(
                        self.state(),
                        old(v).icons@[j],
                    ),
                forall|j: int| k <= j < 5 ==> v.icons@[j] == old(v).icons@[j],
            decreases 5 - k,
        {
            v.icons[k] = self.replace_icon(v.icons[k]);
            k += 1;
        }
        assert(v.icons@ =~= Seq::new(
            old(v).icons@.len(),
            |j: int| item_icon_replaced(self.state(), old(v).icons@[j]),
        ));
    }

    fn on_blueprint_data(&mut self, v: &mut BlueprintData) {
    }

    fn on_building(&mut self, v: &mut Building) {
        v.header.filter_id = self.replace_item(v.header.filter_id);
    }

    fn on_station(&mut self, v: &mut Station) {
    }

    fn on_station_storage(&mut self, v: &mut StationStorage) {
        v.item_id = self.replace_wide_item(v.item_id);
    }

    fn on_station_slots(&mut self, v: &mut StationSlots) {
    }

    fn on_belt(&mut self, v: &mut Belt) {
        v.label = self.replace_icon(v.label);
    }
}

/// The pass that puts recipes for recipes: in the icons of the blueprint, in
/// the labels of belts and in what buildings make.
pub struct ReplaceRecipe<'a>(pub &'a Replace<DSPRecipe>);

impl<'a> ReplaceRecipe<'a> {
    pub fn new(f: &'a Replace<DSPRecipe>) -> (r: Self)
        ensures
            r.state() == f@,
    {
        Self(f)
    }

    /// Puts for a recipe number the one that replaces it.
    pub fn replace_recipe(&self, t: &mut u16)
        ensures
            *final(t) == recipe_id_replaced(self.state(), *old(t)),
    {
        let my_item = match DSPRecipe::try_from(*t) {
            Ok(l) => l,
            Err(_) => {
                return ;
            },
        };
        *t = self.0.apply(my_item).to_u16();
    }

    /// Puts for an icon number the one that replaces it.
    pub fn replace_icon(&self, t: &mut u32)
        ensures
            *final(t) == recipe_icon_replaced(self.state(), *old(t)),
    {
        match DSPIcon::try_from(*t) {
            Ok(DSPIcon::Recipe(i)) => {
                let new = self.0.apply(i);
                *t = DSPIcon::Recipe(new).to_u32();
            },
            Ok(_) => {},
            Err(_) => {},
        }
    }
}

impl<'a> Visitor for ReplaceRecipe<'a> {
    type State = Seq<(DSPRecipe, DSPRecipe)>;

    open spec fn state(&self) -> Seq<(DSPRecipe, DSPRecipe)> {
        self.0@
    }

    /// Each of the five icons is replaced.
    open spec fn at_blueprint(s: Self::State, v: BlueprintView) -> (Self::State, BlueprintView) {
        (
            s,
            BlueprintView {
                icons: Seq::new(v.icons.len(), |k: int| recipe_icon_replaced(s, v.icons[k])),
                ..v
            },
        )
    }

    open spec fn at_blueprint_data(s: Self::State, v: BlueprintDataView) -> (
        Self::State,
        BlueprintDataView,
    ) {
        (s, v)
    }

    /// What the building makes is replaced.
    open spec fn at_building(s: Self::State, v: BuildingView) -> (Self::State, BuildingView) {
        (
            s,
            BuildingView {
                header: BuildingHeader {
                    recipe_id: recipe_id_replaced(s, v.header.recipe_id),
                    ..v.header
                },
                ..v
            },
        )
    }

    open spec fn at_station(s: Self::State, v: StationView) -> (Self::State, StationView) {
        (s, v)
    }

    open spec fn at_station_storage(s: Self::State, v: StationStorage) -> (
        Self::State,
        StationStorage,
    ) {
        (s, v)
    }

    open spec fn at_station_slots(s: Self::State, v: StationSlots) -> (Self::State, StationSlots) {
        (s, v)
    }

    /// The icon of the label is replaced.
    open spec fn at_belt(s: Self::State, v: Belt) -> (Self::State, Belt) {
        (s, Belt { label: recipe_icon_replaced(s, v.label), ..v })
    }

    fn on_blueprint(&mut self, v: &mut Blueprint) {
        let mut k: usize = 0;
        while k < 5
            invariant
                k <= 5,
                self.state() == old(self).state(),
                v@ == (BlueprintView { icons: v.icons@, ..old(v)@ }),
                forall|j: int|
                    0 <= j < k ==> v.icons@[j] == recipe_icon_replaced(
                        self.state(),
                        old(v).icons@[j],
                    ),
                forall|j: int| k <= j < 5 ==> v.icons@[j] == old(v).icons@[j],
            decreases 5 - k,
        {
            let mut icon = v.icons[k];
            self.replace_icon(&mut icon);
            v.icons[k] = icon;
            k += 1;
        }
        assert(v.icons@ =~= Seq::new(
            old(v).icons@.len(),
            |j: int| recipe_icon_replaced(self.state(), old(v).icons@[j]),
        ));
    }

    fn on_blueprint_data(&mut self, v: &mut BlueprintData) {
    }

    fn on_building(&mut self, v: &mut Building) {
        self.replace_recipe(&mut v.header.recipe_id);
    }

    fn on_station(&mut self, v: &mut Station) {
    }

    fn on_station_storage(&mut self, v: &mut StationStorage) {
    }

    fn on_station_slots(&mut self, v: &mut StationSlots) {
    }

    fn on_belt(&mut self, v: &mut Belt) {
        self.replace_icon(&mut v.label);
    }
}

/// The fixed part of a building after the building was replaced: it has the
/// number of the new building, and the model of the new building where this
/// library knows one.
pub open spec fn building_replaced(m: Seq<(DSPItem, DSPItem)>, h: BuildingHeader) -> BuildingHeader {
    match DSPItem::of_id(h.item_id) {
        None => h,
        Some(i) => {
            let new = replaced(m, i);
            if new == i {
                h
            } else {
                BuildingHeader {
                    item_id: new.id(),
                    model_index: match BPModel::of_building(new) {
                        Some(model) => model.id(),
                        None => h.model_index,
                    },
                    ..h
                }
            }
        },
    }
}

/// The pass that puts buildings for buildings: a belt of one tier for a belt
/// of another, and the like.
pub struct ReplaceBuilding<'a>(pub &'a Replace<DSPItem>);

impl<'a> ReplaceBuilding<'a> {
    pub fn new(f: &'a Replace<DSPItem>) -> (r: Self)
        ensures
            r.state() == f@,
    {
        Self(f)
    }

    /// Gives a building the model of the building `new`. Fails, and leaves
    /// the building as it is, where this library knows no model of `new`.
    pub fn replace_bp_model(&self, b: &mut Building, new: DSPItem) -> (r: Result<(), Error>)
        ensures
            match r {
                Ok(()) => BPModel::of_building(new) matches Some(model) && final(b)@ == (
                BuildingView {
                    header: BuildingHeader { model_index: model.id(), ..old(b)@.header },
                    ..old(b)@
                }),
                Err(e) => {
                    &&& BPModel::of_building(new) is None
                    &&& e == Error::MissingModel
                    &&& final(b)@ == old(b)@
                },
            },
    {
        let new_model = BPModel::from_building(new)?;
        b.header.model_index = new_model.to_u16();
        Ok(())
    }

    /// Puts for a building the one that replaces it.
    pub fn replace_building(&self, b: &mut Building)
        ensures
            final(b)@ == (BuildingView {
                header: building_replaced(self.state(), old(b)@.header),
                ..old(b)@
            }),
    {
        let my_item = match DSPItem::try_from(b.header.item_id) {
            Ok(l) => l,
            Err(_) => {
                return ;
            },
        };
        let new_item = self.0.apply(my_item);
        if my_item.to_u16() == new_item.to_u16() {
            proof {
                DSPItem::lemma_id_injective(my_item, new_item);
            }
            return ;
        }
        b.header.item_id = new_item.to_u16();
        let _ = self.replace_bp_model(b, new_item);
    }
}

impl<'a> Visitor for ReplaceBuilding<'a> {
    type State = Seq<(DSPItem, DSPItem)>;

    open spec fn state(&self) -> Seq<(DSPItem, DSPItem)> {
        self.0@
    }

    open spec fn at_blueprint(s: Self::State, v: BlueprintView) -> (Self::State, BlueprintView) {
        (s, v)
    }

    open spec fn at_blueprint_data(s: Self::State, v: BlueprintDataView) -> (
        Self::State,
        BlueprintDataView,
    ) {
        (s, v)
    }

    /// The building is replaced.
    open spec fn at_building(s: Self::State, v: BuildingView) -> (Self::State, BuildingView) {
        (s, BuildingView { header: building_replaced(s, v.header), ..v })
    }

    open spec fn at_station(s: Self::State, v: StationView) -> (Self::State, StationView) {
        (s, v)
    }

    open spec fn at_station_storage(s: Self::State, v: StationStorage) -> (
        Self::State,
        StationStorage,
    ) {
        (s, v)
    }

    open spec fn at_station_slots(s: Self::State, v: StationSlots) -> (Self::State, StationSlots) {
        (s, v)
    }

    open spec fn at_belt(s: Self::State, v: Belt) -> (Self::State, Belt) {
        (s, v)
    }

    fn on_blueprint(&mut self, v: &mut Blueprint) {
    }

    fn on_blueprint_data(&mut self, v: &mut BlueprintData) {
    }

    fn on_building(&mut self, v: &mut Building) {
        self.replace_building(v);
    }

    fn on_station(&mut self, v: &mut Station) {
    }

    fn on_station_storage(&mut self, v: &mut StationStorage) {
    }

    fn on_station_slots(&mut self, v: &mut StationSlots) {
    }

    fn on_belt(&mut self, v: &mut Belt) {
    }
}

} // verus!
