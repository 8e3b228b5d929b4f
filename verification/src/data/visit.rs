//! Walking the tree of a blueprint.
//!
//! A blueprint is a tree: the blueprint holds a payload, the payload holds
//! buildings, a building may hold a station or the label of a belt, and a
//! station holds wares and belt connections. A [`Visitor`] says what it does
//! at a node of each kind. To visit a node is to act at the node and then to
//! go on to what is beneath it: the methods of [`Pass`], which every visitor
//! has, do so. [`Visit::visit`] is the second half alone: it hands each child
//! of a node to the visitor, in the order of the children.
//!
//! The walk is written once, here. A pass over blueprints is a visitor, and
//! a new pass needs no change to the walk.

use crate::blueprint::{Blueprint, BlueprintView};
use crate::data::belt::Belt;
use crate::data::blueprint::{BlueprintData, BlueprintDataView};
use crate::data::building::{Building, BuildingParam, BuildingParamView, BuildingView};
use crate::data::station::{walked_count, Station, StationSlots, StationStorage, StationView};
use vstd::prelude::*;

verus! {

/// What acts at the nodes of a blueprint.
///
/// For each kind of node, a visitor states as a mathematical function what
/// it makes of itself and of the node, and has a method that does so. Such
/// a method acts at the node only. The methods of [`Pass`] visit a node:
/// they act at it, and go on to what is beneath.
pub trait Visitor: Sized {
    /// What the visitor is, to the functions that state what it does.
    type State;

    /// What the visitor is, as a mathematical value.
    spec fn state(&self) -> Self::State;

    /// What the visitor makes of itself and of a blueprint.
    spec fn at_blueprint(s: Self::State, v: BlueprintView) -> (Self::State, BlueprintView);

    /// What the visitor makes of itself and of a payload.
    spec fn at_blueprint_data(s: Self::State, v: BlueprintDataView) -> (
        Self::State,
        BlueprintDataView,
    );

    /// What the visitor makes of itself and of a building.
    spec fn at_building(s: Self::State, v: BuildingView) -> (Self::State, BuildingView);

    /// What the visitor makes of itself and of a station.
    spec fn at_station(s: Self::State, v: StationView) -> (Self::State, StationView);

    /// What the visitor makes of itself and of a ware of a station.
    spec fn at_station_storage(s: Self::State, v: StationStorage) -> (Self::State, StationStorage);

    /// What the visitor makes of itself and of a belt connection of a
    /// station.
    spec fn at_station_slots(s: Self::State, v: StationSlots) -> (Self::State, StationSlots);

    /// What the visitor makes of itself and of the label of a belt.
    spec fn at_belt(s: Self::State, v: Belt) -> (Self::State, Belt);

    /// Acts at a blueprint.
    fn on_blueprint(&mut self, v: &mut Blueprint)
        ensures
            (final(self).state(), final(v)@) == Self::at_blueprint(old(self).state(), old(v)@),
    ;

    /// Acts at a payload.
    fn on_blueprint_data(&mut self, v: &mut BlueprintData)
        ensures
            (final(self).state(), final(v)@) == Self::at_blueprint_data(
                old(self).state(),
                old(v)@,
            ),
    ;

    /// Acts at a building.
    fn on_building(&mut self, v: &mut Building)
        ensures
            (final(self).state(), final(v)@) == Self::at_building(old(self).state(), old(v)@),
    ;

    /// Acts at a station.
    fn on_station(&mut self, v: &mut Station)
        ensures
            (final(self).state(), final(v)@) == Self::at_station(old(self).state(), old(v)@),
    ;

    /// Acts at a ware of a station.
    fn on_station_storage(&mut self, v: &mut StationStorage)
        ensures
            (final(self).state(), *final(v)) == Self::at_station_storage(
                old(self).state(),
                *old(v),
            ),
    ;

    /// Acts at a belt connection of a station.
    fn on_station_slots(&mut self, v: &mut StationSlots)
        ensures
            (final(self).state(), *final(v)) == Self::at_station_slots(old(self).state(), *old(v)),
    ;

    /// Acts at the label of a belt.
    fn on_belt(&mut self, v: &mut Belt)
        ensures
            (final(self).state(), *final(v)) == Self::at_belt(old(self).state(), *old(v)),
    ;
}

/// A node of the tree of a blueprint, which visitors of the kind `T` visit.
pub trait Visit<T: Visitor>: View {
    /// What a visitor and the node are after the visitor has been handed
    /// the children of the node, one after the other. Each child is visited:
    /// the visitor acts at it and goes on to what is beneath it.
    spec fn beneath(s: T::State, v: Self::V) -> (T::State, Self::V);

    /// What a visitor and the node are after the visitor has visited the
    /// node: it has acted at the node, and then gone on to what is beneath.
    spec fn visited(s: T::State, v: Self::V) -> (T::State, Self::V);

    /// Hands the children of the node to a visitor. The visitor does not
    /// act at the node itself.
    fn visit(&mut self, visitor: &mut T)
        ensures
            (final(visitor).state(), final(self)@) == Self::beneath(
                old(visitor).state(),
                old(self)@,
            ),
    ;

    /// Lets a visitor visit the node: the visitor acts at the node, and is
    /// then handed the node's children.
    fn accept(&mut self, visitor: &mut T)
        ensures
            (final(visitor).state(), final(self)@) == Self::visited(
                old(visitor).state(),
                old(self)@,
            ),
    ;
}

impl View for Belt {
    type V = Belt;

    open spec fn view(&self) -> Belt {
        *self
    }
}

impl View for StationStorage {
    type V = StationStorage;

    open spec fn view(&self) -> StationStorage {
        *self
    }
}

impl View for StationSlots {
    type V = StationSlots;

    open spec fn view(&self) -> StationSlots {
        *self
    }
}

/// The nodes of a vector as mathematical values.
pub open spec fn views_of<N: View>(v: Seq<N>) -> Seq<N::V> {
    Seq::new(v.len(), |i: int| v[i]@)
}

/// What a visitor and a sequence of nodes are after the visitor has visited
/// the first `n` of the nodes, one after the other.
pub open spec fn walked<T: Visitor, N: Visit<T>>(s: T::State, v: Seq<N::V>, n: nat) -> (
    T::State,
    Seq<N::V>,
)
    decreases n,
{
    if n == 0 {
        (s, v)
    } else {
        let (s1, v1) = walked::<T, N>(s, v, (n - 1) as nat);
        let (s2, x) = N::visited(s1, v1[n - 1]);
        (s2, v1.update(n - 1, x))
    }
}

/// Lets a visitor visit the first `count` nodes of a vector.
pub fn visit_all<T: Visitor, N: Visit<T>>(items: &mut Vec<N>, count: usize, visitor: &mut T)
    requires
        count <= old(items)@.len(),
    ensures
        (final(visitor).state(), views_of(final(items)@)) == walked::<T, N>(
            old(visitor).state(),
            views_of(old(items)@),
            count as nat,
        ),
{
    let mut i: usize = 0;
    while i < count
        invariant
            i <= count <= items@.len(),
            items@.len() == old(items)@.len(),
            (visitor.state(), views_of(items@)) == walked::<T, N>(
                old(visitor).state(),
                views_of(old(items)@),
                i as nat,
            ),
        decreases count - i,
    {
        let ghost before = views_of(items@);
        items[i].accept(visitor);
        assert(views_of(items@) =~= before.update(i as int, items@[i as int]@));
        i += 1;
    }
}

impl<T: Visitor> Visit<T> for Belt {
    /// Nothing is beneath the label of a belt.
    open spec fn beneath(s: T::State, v: Belt) -> (T::State, Belt) {
        (s, v)
    }

    open spec fn visited(s: T::State, v: Belt) -> (T::State, Belt) {
        T::at_belt(s, v)
    }

    fn visit(&mut self, visitor: &mut T) {
    }

    fn accept(&mut self, visitor: &mut T) {
        visitor.on_belt(self);
    }
}

impl<T: Visitor> Visit<T> for StationStorage {
    /// Nothing is beneath a ware of a station.
    open spec fn beneath(s: T::State, v: StationStorage) -> (T::State, StationStorage) {
        (s, v)
    }

    open spec fn visited(s: T::State, v: StationStorage) -> (T::State, StationStorage) {
        T::at_station_storage(s, v)
    }

    fn visit(&mut self, visitor: &mut T) {
    }

    fn accept(&mut self, visitor: &mut T) {
        visitor.on_station_storage(self);
    }
}

impl<T: Visitor> Visit<T> for StationSlots {
    /// Nothing is beneath a belt connection of a station.
    open spec fn beneath(s: T::State, v: StationSlots) -> (T::State, StationSlots) {
        (s, v)
    }

    open spec fn visited(s: T::State, v: StationSlots) -> (T::State, StationSlots) {
        T::at_station_slots(s, v)
    }

    fn visit(&mut self, visitor: &mut T) {
    }

    fn accept(&mut self, visitor: &mut T) {
        visitor.on_station_slots(self);
    }
}

impl<T: Visitor> Visit<T> for Station {
    /// Beneath a station are the wares of its kind and then its belt
    /// connections. The wares behind those of its kind are not visited.
    open spec fn beneath(s: T::State, v: StationView) -> (T::State, StationView) {
        let (s1, storage) = walked::<T, StationStorage>(s, v.storage, walked_count(v) as nat);
        let (s2, slots) = walked::<T, StationSlots>(s1, v.slots, v.slots.len());
        (s2, StationView { storage, slots, ..v })
    }

    open spec fn visited(s: T::State, v: StationView) -> (T::State, StationView) {
        let (s1, v1) = T::at_station(s, v);
        <Station as Visit<T>>::beneath(s1, v1)
    }

    fn visit(&mut self, visitor: &mut T) {
        let count = self.valid_storage().len();
        assert(views_of(self.storage@) =~= self.storage@);
        assert(views_of(self.slots@) =~= self.slots@);
        visit_all(&mut self.storage, count, visitor);
        let n = self.slots.len();
        visit_all(&mut self.slots, n, visitor);
        assert(views_of(self.storage@) =~= self.storage@);
        assert(views_of(self.slots@) =~= self.slots@);
    }

    fn accept(&mut self, visitor: &mut T) {
        visitor.on_station(self);
        self.visit(visitor);
    }
}

impl<T: Visitor> Visit<T> for Building {
    /// Beneath a building is the station or the label that it holds, if it
    /// holds one.
    open spec fn beneath(s: T::State, v: BuildingView) -> (T::State, BuildingView) {
        match v.param {
            BuildingParamView::Station(station) => {
                let (s1, x) = <Station as Visit<T>>::visited(s, station);
                (s1, BuildingView { param: BuildingParamView::Station(x), ..v })
            },
            BuildingParamView::Belt(Some(belt)) => {
                let (s1, x) = <Belt as Visit<T>>::visited(s, belt);
                (s1, BuildingView { param: BuildingParamView::Belt(Some(x)), ..v })
            },
            _ => (s, v),
        }
    }

    open spec fn visited(s: T::State, v: BuildingView) -> (T::State, BuildingView) {
        let (s1, v1) = T::at_building(s, v);
        <Building as Visit<T>>::beneath(s1, v1)
    }

    fn visit(&mut self, visitor: &mut T) {
        match &mut self.param {
            BuildingParam::Station(station) => station.accept(visitor),
            BuildingParam::Belt(Some(belt)) => belt.accept(visitor),
            _ => {},
        }
    }

    fn accept(&mut self, visitor: &mut T) {
        visitor.on_building(self);
        self.visit(visitor);
    }
}

impl<T: Visitor> Visit<T> for BlueprintData {
    /// Beneath a payload are its buildings.
    open spec fn beneath(s: T::State, v: BlueprintDataView) -> (T::State, BlueprintDataView) {
        let (s1, buildings) = walked::<T, Building>(s, v.buildings, v.buildings.len());
        (s1, BlueprintDataView { buildings, ..v })
    }

    open spec fn visited(s: T::State, v: BlueprintDataView) -> (
        T::State,
        BlueprintDataView,
    ) {
        let (s1, v1) = T::at_blueprint_data(s, v);
        <BlueprintData as Visit<T>>::beneath(s1, v1)
    }

    fn visit(&mut self, visitor: &mut T) {
        let n = self.buildings.len();
        visit_all(&mut self.buildings, n, visitor);
    }

    fn accept(&mut self, visitor: &mut T) {
        visitor.on_blueprint_data(self);
        self.visit(visitor);
    }
}

impl<T: Visitor> Visit<T> for Blueprint {
    /// Beneath a blueprint is its payload.
    open spec fn beneath(s: T::State, v: BlueprintView) -> (T::State, BlueprintView) {
        let (s1, data) = <BlueprintData as Visit<T>>::visited(s, v.data);
        (s1, BlueprintView { data, ..v })
    }

    open spec fn visited(s: T::State, v: BlueprintView) -> (T::State, BlueprintView) {
        let (s1, v1) = T::at_blueprint(s, v);
        <Blueprint as Visit<T>>::beneath(s1, v1)
    }

    fn visit(&mut self, visitor: &mut T) {
        self.data.accept(visitor);
    }

    fn accept(&mut self, visitor: &mut T) {
        visitor.on_blueprint(self);
        self.visit(visitor);
    }
}

/// What every visitor can do: visit a node of each kind. To visit a node is
/// to act at it and then to visit what is beneath it, in its order.
pub trait Pass: Visitor {
    /// Visits a blueprint, and the payload beneath it.
    fn visit_blueprint(&mut self, v: &mut Blueprint)
        ensures
            (final(self).state(), final(v)@) == <Blueprint as Visit<Self>>::visited(
                old(self).state(),
                old(v)@,
            ),
    ;

    /// Visits a payload, and the buildings beneath it.
    fn visit_blueprint_data(&mut self, v: &mut BlueprintData)
        ensures
            (final(self).state(), final(v)@) == <BlueprintData as Visit<Self>>::visited(
                old(self).state(),
                old(v)@,
            ),
    ;

    /// Visits a building, and the station or the label beneath it.
    fn visit_building(&mut self, v: &mut Building)
        ensures
            (final(self).state(), final(v)@) == <Building as Visit<Self>>::visited(
                old(self).state(),
                old(v)@,
            ),
    ;

    /// Visits a station, and the wares and belt connections beneath it.
    fn visit_station(&mut self, v: &mut Station)
        ensures
            (final(self).state(), final(v)@) == <Station as Visit<Self>>::visited(
                old(self).state(),
                old(v)@,
            ),
    ;

    /// Visits a ware of a station.
    fn visit_station_storage(&mut self, v: &mut StationStorage)
        ensures
            (final(self).state(), final(v)@) == <StationStorage as Visit<Self>>::visited(
                old(self).state(),
                old(v)@,
            ),
    ;

    /// Visits a belt connection of a station.
    fn visit_station_slots(&mut self, v: &mut StationSlots)
        ensures
            (final(self).state(), final(v)@) == <StationSlots as Visit<Self>>::visited(
                old(self).state(),
                old(v)@,
            ),
    ;

    /// Visits the label of a belt.
    fn visit_belt(&mut self, v: &mut Belt)
        ensures
            (final(self).state(), final(v)@) == <Belt as Visit<Self>>::visited(
                old(self).state(),
                old(v)@,
            ),
    ;
}

impl<T: Visitor> Pass for T {
    fn visit_blueprint(&mut self, v: &mut Blueprint) {
        v.accept(self);
    }

    fn visit_blueprint_data(&mut self, v: &mut BlueprintData) {
        v.accept(self);
    }

    fn visit_building(&mut self, v: &mut Building) {
        v.accept(self);
    }

    fn visit_station(&mut self, v: &mut Station) {
        v.accept(self);
    }

    fn visit_station_storage(&mut self, v: &mut StationStorage) {
        v.accept(self);
    }

    fn visit_station_slots(&mut self, v: &mut StationSlots) {
        v.accept(self);
    }

    fn visit_belt(&mut self, v: &mut Belt) {
        v.accept(self);
    }
}

} // verus!
