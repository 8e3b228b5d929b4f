//! What holds of every walk over a blueprint, and of the passes of this
//! library: a pass that only looks changes nothing, counting counts each
//! building once, and a pass that edits leaves a blueprint that can be
//! written and read again.

use crate::blueprint::{Blueprint, BlueprintView};
use crate::data::belt::Belt;
use crate::data::blueprint::BlueprintDataView;
use crate::data::building::{Building, BuildingHeader, BuildingParamView, BuildingView};
use crate::data::enums::{BuildingClass, DSPItem, DSPRecipe};
use crate::data::station::{walked_count, Station, StationSlots, StationStorage, StationView};
use crate::data::visit::{walked, Visit, Visitor};
use crate::edit::all_valid;
use crate::edit::replace::{
    building_replaced, item_icon_replaced, item_id_replaced, recipe_icon_replaced,
    recipe_id_replaced, replaced, wide_item_id_replaced, ReplaceBuilding, ReplaceItem,
    ReplaceRecipe,
};
use crate::edit::stats::GetStats;
use crate::stats::{count_of, counted, StatsView};
use vstd::prelude::*;

verus! {

/// Whether a visitor leaves every node as it is, whatever it makes of itself.
pub open spec fn changes_nothing<T: Visitor>() -> bool {
    &&& forall|s: T::State, v: BlueprintView| (#[trigger] T::at_blueprint(s, v)).1 == v
    &&& forall|s: T::State, v: BlueprintDataView| (#[trigger] T::at_blueprint_data(s, v)).1 == v
    &&& forall|s: T::State, v: BuildingView| (#[trigger] T::at_building(s, v)).1 == v
    &&& forall|s: T::State, v: StationView| (#[trigger] T::at_station(s, v)).1 == v
    &&& forall|s: T::State, v: StationStorage| (#[trigger] T::at_station_storage(s, v)).1 == v
    &&& forall|s: T::State, v: StationSlots| (#[trigger] T::at_station_slots(s, v)).1 == v
    &&& forall|s: T::State, v: Belt| (#[trigger] T::at_belt(s, v)).1 == v
}

/// Walking nodes that the walk of each leaves as it is leaves them all as
/// they are.
proof fn lemma_walked_unchanged<T: Visitor, N: Visit<T>>(s: T::State, v: Seq<N::V>, n: nat)
    requires
        n <= v.len(),
        forall|s1: T::State, x: N::V| (#[trigger] N::visited(s1, x)).1 == x,
    ensures
        walked::<T, N>(s, v, n).1 == v,
    decreases n,
{
    if n > 0 {
        lemma_walked_unchanged::<T, N>(s, v, (n - 1) as nat);
        let (s1, v1) = walked::<T, N>(s, v, (n - 1) as nat);
    }
}

/// A station that is walked by a visitor that changes nothing stays as it
/// is.
proof fn lemma_station_unchanged<T: Visitor>(s: T::State, v: StationView)
    requires
        changes_nothing::<T>(),
    ensures
        <Station as Visit<T>>::visited(s, v).1 == v,
{
    let (s1, v1) = T::at_station(s, v);
    assert forall|a: T::State, x: StationStorage|
        (#[trigger] <StationStorage as Visit<T>>::visited(a, x)).1 == x by {}
    assert forall|a: T::State, x: StationSlots|
        (#[trigger] <StationSlots as Visit<T>>::visited(a, x)).1 == x by {}
    lemma_walked_unchanged::<T, StationStorage>(s1, v1.storage, walked_count(v1) as nat);
    let (s2, storage) = walked::<T, StationStorage>(s1, v1.storage, walked_count(v1) as nat);
    lemma_walked_unchanged::<T, StationSlots>(s2, v1.slots, v1.slots.len());
}

/// A building that is walked by a visitor that changes nothing stays as it
/// is.
proof fn lemma_building_unchanged<T: Visitor>(s: T::State, v: BuildingView)
    requires
        changes_nothing::<T>(),
    ensures
        <Building as Visit<T>>::visited(s, v).1 == v,
{
    let (s1, v1) = T::at_building(s, v);
    if let BuildingParamView::Station(station) = v1.param {
        lemma_station_unchanged::<T>(s1, station);
    }
}

/// **A visitor that changes no node changes no blueprint.**
pub proof fn lemma_changes_nothing<T: Visitor>(s: T::State, v: BlueprintView)
    requires
        changes_nothing::<T>(),
    ensures
        <Blueprint as Visit<T>>::visited(s, v).1 == v,
{
    let (s1, v1) = T::at_blueprint(s, v);
    let (s2, d) = T::at_blueprint_data(s1, v1.data);
    assert forall|a: T::State, x: BuildingView|
        (#[trigger] <Building as Visit<T>>::visited(a, x)).1 == x by {
        lemma_building_unchanged::<T>(a, x);
    }
    lemma_walked_unchanged::<T, Building>(s2, d.buildings, d.buildings.len());
}

/// **Counting changes nothing.**
pub proof fn lemma_counting_changes_nothing(s: StatsView, v: BlueprintView)
    ensures
        <Blueprint as Visit<GetStats>>::visited(s, v).1 == v,
{
    lemma_changes_nothing::<GetStats>(s, v);
}

/// Whether two stations have parts of the same lengths and are of the same
/// kind.
pub open spec fn station_same_shape(a: StationView, b: StationView) -> bool {
    &&& a.is_interstellar == b.is_interstellar
    &&& a.storage.len() == b.storage.len()
    &&& a.unknown1.len() == b.unknown1.len()
    &&& a.unknown2.len() == b.unknown2.len()
    &&& a.slots.len() == b.slots.len()
    &&& a.unknown3.len() == b.unknown3.len()
}

/// Whether two blocks of parameters are of the same shape and length.
pub open spec fn same_shape(p: BuildingParamView, q: BuildingParamView) -> bool {
    match (p, q) {
        (BuildingParamView::Station(a), BuildingParamView::Station(b)) => station_same_shape(a, b),
        (BuildingParamView::Belt(Some(_)), BuildingParamView::Belt(Some(_))) => true,
        (BuildingParamView::Belt(None), BuildingParamView::Belt(None)) => true,
        (BuildingParamView::Unknown(a), BuildingParamView::Unknown(b)) => a.len() == b.len(),
        _ => false,
    }
}

/// Whether a visitor is gentle while it is in one of the states `ok`: it
/// stays in such a state, and what it does at a node leaves the node of the
/// shape that it had. At a blueprint it changes the icons at most, at a
/// payload nothing; at a building it leaves the parameters to the walk and
/// keeps a well-formed building well formed; at a station it changes no
/// length.
pub open spec fn gentle<T: Visitor>(ok: spec_fn(T::State) -> bool) -> bool {
    &&& forall|s: T::State, v: BlueprintView|
        ok(s) ==> {
            let (s1, v1) = #[trigger] T::at_blueprint(s, v);
            ok(s1) && v1 == (BlueprintView { icons: v1.icons, ..v }) && v1.icons.len()
                == v.icons.len()
        }
    &&& forall|s: T::State, v: BlueprintDataView|
        ok(s) ==> {
            let (s1, v1) = #[trigger] T::at_blueprint_data(s, v);
            ok(s1) && v1 == v
        }
    &&& forall|s: T::State, v: BuildingView|
        ok(s) ==> {
            let (s1, v1) = #[trigger] T::at_building(s, v);
            ok(s1) && v1.param == v.param && v1.header.parameter_count
                == v.header.parameter_count && (v.wf() ==> v1.wf())
        }
    &&& forall|s: T::State, v: StationView|
        ok(s) ==> {
            let (s1, v1) = #[trigger] T::at_station(s, v);
            ok(s1) && station_same_shape(v1, v)
        }
    &&& forall|s: T::State, v: StationStorage| ok(s) ==> ok((#[trigger] T::at_station_storage(s, v)).0)
    &&& forall|s: T::State, v: StationSlots| ok(s) ==> ok((#[trigger] T::at_station_slots(s, v)).0)
    &&& forall|s: T::State, v: Belt| ok(s) ==> ok((#[trigger] T::at_belt(s, v)).0)
}

/// Walking the first nodes of a sequence keeps what the walk of each node
/// keeps: the state of the visitor among the states `ok`, and every node
/// among the nodes `good`.
proof fn lemma_walked_keeps<T: Visitor, N: Visit<T>>(
    s: T::State,
    v: Seq<N::V>,
    n: nat,
    ok: spec_fn(T::State) -> bool,
    good: spec_fn(N::V) -> bool,
)
    requires
        n <= v.len(),
        ok(s),
        forall|i: int| 0 <= i < v.len() ==> good(#[trigger] v[i]),
        forall|s1: T::State, x: N::V|
            ok(s1) && good(x) ==> ok((#[trigger] N::visited(s1, x)).0) && good(
                N::visited(s1, x).1,
            ),
    ensures
        ok(walked::<T, N>(s, v, n).0),
        walked::<T, N>(s, v, n).1.len() == v.len(),
        forall|i: int| 0 <= i < v.len() ==> good(#[trigger] walked::<T, N>(s, v, n).1[i]),
    decreases n,
{
    if n > 0 {
        lemma_walked_keeps::<T, N>(s, v, (n - 1) as nat, ok, good);
        let (s1, v1) = walked::<T, N>(s, v, (n - 1) as nat);
    }
}

/// A station that a gentle visitor walks keeps its shape.
proof fn lemma_station_keeps_shape<T: Visitor>(
    s: T::State,
    v: StationView,
    ok: spec_fn(T::State) -> bool,
)
    requires
        gentle::<T>(ok),
        ok(s),
    ensures
        ok(<Station as Visit<T>>::visited(s, v).0),
        station_same_shape(<Station as Visit<T>>::visited(s, v).1, v),
{
    let (s1, v1) = T::at_station(s, v);
    let all = |x: StationStorage| true;
    assert forall|a: T::State, x: StationStorage| ok(a) && all(x) implies ok(
        (#[trigger] <StationStorage as Visit<T>>::visited(a, x)).0,
    ) && all(<StationStorage as Visit<T>>::visited(a, x).1) by {}
    lemma_walked_keeps::<T, StationStorage>(s1, v1.storage, walked_count(v1) as nat, ok, all);
    let (s2, storage) = walked::<T, StationStorage>(s1, v1.storage, walked_count(v1) as nat);
    let every = |x: StationSlots| true;
    assert forall|a: T::State, x: StationSlots| ok(a) && every(x) implies ok(
        (#[trigger] <StationSlots as Visit<T>>::visited(a, x)).0,
    ) && every(<StationSlots as Visit<T>>::visited(a, x).1) by {}
    lemma_walked_keeps::<T, StationSlots>(s2, v1.slots, v1.slots.len(), ok, every);
}

/// Whether parameters fit a building depends on their shape alone.
proof fn lemma_fits_by_shape(p: BuildingParamView, q: BuildingParamView, item_id: u16, count: nat)
    requires
        same_shape(p, q),
        p.fits(item_id, count),
    ensures
        q.fits(item_id, count),
{
}

/// A well-formed building that a gentle visitor walks stays well formed.
proof fn lemma_building_stays_wf<T: Visitor>(
    s: T::State,
    v: BuildingView,
    ok: spec_fn(T::State) -> bool,
)
    requires
        gentle::<T>(ok),
        ok(s),
        v.wf(),
    ensures
        ok(<Building as Visit<T>>::visited(s, v).0),
        <Building as Visit<T>>::visited(s, v).1.wf(),
{
    let (s1, v1) = T::at_building(s, v);
    if let BuildingParamView::Station(station) = v1.param {
        lemma_station_keeps_shape::<T>(s1, station, ok);
        let after = <Station as Visit<T>>::visited(s1, station).1;
        lemma_fits_by_shape(
            v1.param,
            BuildingParamView::Station(after),
            v1.header.item_id,
            v1.header.parameter_count as nat,
        );
    }
}

/// **A well-formed blueprint that a gentle visitor walks stays well
/// formed**: it can be written, and is read again as it was written.
pub proof fn lemma_gentle_keeps_wf<T: Visitor>(
    s: T::State,
    v: BlueprintView,
    ok: spec_fn(T::State) -> bool,
)
    requires
        gentle::<T>(ok),
        ok(s),
        v.wf(),
    ensures
        ok(<Blueprint as Visit<T>>::visited(s, v).0),
        <Blueprint as Visit<T>>::visited(s, v).1.wf(),
{
    let (s1, v1) = T::at_blueprint(s, v);
    let (s2, d) = T::at_blueprint_data(s1, v1.data);
    let good = |b: BuildingView| b.wf();
    assert forall|a: T::State, x: BuildingView| ok(a) && good(x) implies ok(
        (#[trigger] <Building as Visit<T>>::visited(a, x)).0,
    ) && good(<Building as Visit<T>>::visited(a, x).1) by {
        lemma_building_stays_wf::<T>(a, x, ok);
    }
    assert forall|i: int| 0 <= i < d.buildings.len() implies good(#[trigger] d.buildings[i]) by {}
    lemma_walked_keeps::<T, Building>(s2, d.buildings, d.buildings.len(), ok, good);
    let after = walked::<T, Building>(s2, d.buildings, d.buildings.len()).1;
    assert forall|i: int| 0 <= i < after.len() implies (#[trigger] after[i]).wf() by {}
}

/// **Replacing items keeps a blueprint well formed.**
pub proof fn lemma_replace_item_keeps_wf(m: Seq<(DSPItem, DSPItem)>, v: BlueprintView)
    requires
        v.wf(),
    ensures
        <Blueprint as Visit<ReplaceItem>>::visited(m, v).1.wf(),
{
    let ok = |s: Seq<(DSPItem, DSPItem)>| true;
    lemma_gentle_keeps_wf::<ReplaceItem>(m, v, ok);
}

/// **Replacing recipes keeps a blueprint well formed.**
pub proof fn lemma_replace_recipe_keeps_wf(m: Seq<(DSPRecipe, DSPRecipe)>, v: BlueprintView)
    requires
        v.wf(),
    ensures
        <Blueprint as Visit<ReplaceRecipe>>::visited(m, v).1.wf(),
{
    let ok = |s: Seq<(DSPRecipe, DSPRecipe)>| true;
    lemma_gentle_keeps_wf::<ReplaceRecipe>(m, v, ok);
}

/// An item that stands first in no pair is replaced by itself.
proof fn lemma_replaced_no_key(m: Seq<(DSPItem, DSPItem)>, i: DSPItem)
    requires
        forall|k: int| 0 <= k < m.len() ==> (#[trigger] m[k]).0 != i,
    ensures
        replaced(m, i) == i,
    decreases m.len(),
{
    if m.len() > 0 {
        assert forall|k: int| 0 <= k < m.drop_last().len() implies (#[trigger] m.drop_last()[k]).0
            != i by {}
        lemma_replaced_no_key(m.drop_last(), i);
    }
}

/// What replaces an item, where the pairs put for each building one of its
/// class, is the item itself or a building of the item's class.
proof fn lemma_replaced_in_class(m: Seq<(DSPItem, DSPItem)>, i: DSPItem)
    requires
        all_valid(m),
    ensures
        replaced(m, i) == i || BuildingClass::valid_replacement(i, replaced(m, i)),
{
    if !(exists|k: int| 0 <= k < m.len() && (#[trigger] m[k]).0 == i) {
        lemma_replaced_no_key(m, i);
    }
}

/// **Replacing buildings by buildings of their class keeps a blueprint well
/// formed**: a belt stays a belt, and a station is never replaced.
pub proof fn lemma_replace_building_keeps_wf(m: Seq<(DSPItem, DSPItem)>, v: BlueprintView)
    requires
        all_valid(m),
        v.wf(),
    ensures
        <Blueprint as Visit<ReplaceBuilding>>::visited(m, v).1.wf(),
{
    let ok = |s: Seq<(DSPItem, DSPItem)>| all_valid(s);
    assert forall|s: Seq<(DSPItem, DSPItem)>, b: BuildingView| ok(s) implies ({
        let (s1, b1) = #[trigger] ReplaceBuilding::at_building(s, b);
        ok(s1) && b1.param == b.param && b1.header.parameter_count == b.header.parameter_count && (
        b.wf() ==> b1.wf())
    }) by {
        if let Some(i) = DSPItem::of_id(b.header.item_id) {
            lemma_replaced_in_class(s, i);
            DSPItem::lemma_of_id(replaced(s, i));
            DSPItem::lemma_of_id(i);
        }
    }
    lemma_gentle_keeps_wf::<ReplaceBuilding>(m, v, ok);
}

/// A count that was raised `n` times from `c`: it has risen by `n`, or
/// stopped at the most that the machine counts.
pub open spec fn raised(c: usize, n: nat) -> usize {
    if c + n < usize::MAX {
        (c + n) as usize
    } else {
        usize::MAX
    }
}

/// How many of the first `n` buildings are the building with the number
/// `id`.
pub open spec fn buildings_with(b: Seq<BuildingView>, id: u16, n: nat) -> nat
    decreases n,
{
    if n == 0 {
        0
    } else {
        buildings_with(b, id, (n - 1) as nat) + if b[n - 1].header.item_id == id {
            1nat
        } else {
            0nat
        }
    }
}

/// How many of the first `n` buildings make the recipe with the number
/// `id`.
pub open spec fn buildings_making(b: Seq<BuildingView>, id: u16, n: nat) -> nat
    decreases n,
{
    if n == 0 {
        0
    } else {
        buildings_making(b, id, (n - 1) as nat) + if b[n - 1].header.recipe_id == id {
            1nat
        } else {
            0nat
        }
    }
}

/// Counting the wares of a station changes no count of buildings and no
/// count of recipes.
proof fn lemma_wares_leave_buildings(s: StatsView, v: Seq<StationStorage>, n: nat)
    requires
        n <= v.len(),
    ensures
        walked::<GetStats, StationStorage>(s, v, n).0.buildings == s.buildings,
        walked::<GetStats, StationStorage>(s, v, n).0.recipes == s.recipes,
    decreases n,
{
    if n > 0 {
        lemma_wares_leave_buildings(s, v, (n - 1) as nat);
    }
}

/// Walking the belt connections of a station changes no count.
proof fn lemma_slots_leave_counts(s: StatsView, v: Seq<StationSlots>, n: nat)
    requires
        n <= v.len(),
    ensures
        walked::<GetStats, StationSlots>(s, v, n).0 == s,
    decreases n,
{
    if n > 0 {
        lemma_slots_leave_counts(s, v, (n - 1) as nat);
    }
}

/// **Visiting a building with the pass that counts raises the count of its
/// number by one**, where the catalog holds the number, and the count of
/// what it makes likewise. No other count of buildings or recipes changes,
/// and the building stays as it is.
pub proof fn lemma_one_building_counted(s: StatsView, v: BuildingView)
    ensures
        <Building as Visit<GetStats>>::visited(s, v).1 == v,
        ({
            let after = <Building as Visit<GetStats>>::visited(s, v).0;
            &&& after.buildings == match DSPItem::of_id(v.header.item_id) {
                Some(b) => counted(s.buildings, b.id()),
                None => s.buildings,
            }
            &&& after.recipes == match DSPRecipe::of_id(v.header.recipe_id) {
                Some(r) => counted(s.recipes, r.id()),
                None => s.recipes,
            }
        }),
{
    lemma_building_unchanged::<GetStats>(s, v);
    let (s1, v1) = GetStats::at_building(s, v);
    if let BuildingParamView::Station(station) = v1.param {
        let (s2, st) = GetStats::at_station(s1, station);
        lemma_wares_leave_buildings(s2, st.storage, walked_count(st) as nat);
        let (s3, storage) = walked::<GetStats, StationStorage>(
            s2,
            st.storage,
            walked_count(st) as nat,
        );
        lemma_slots_leave_counts(s3, st.slots, st.slots.len());
    }
}

/// **The count of a building is the number of times that the building
/// occurs**, and the count of a recipe is the number of buildings that make
/// it. This is what counting the first `n` buildings adds to the counts
/// that were there.
pub proof fn lemma_buildings_counted(
    s: StatsView,
    b: Seq<BuildingView>,
    n: nat,
    item: DSPItem,
    recipe: DSPRecipe,
)
    requires
        n <= b.len(),
    ensures
        walked::<GetStats, Building>(s, b, n).1 == b,
        count_of(walked::<GetStats, Building>(s, b, n).0.buildings, item.id()) == raised(
            count_of(s.buildings, item.id()),
            buildings_with(b, item.id(), n),
        ),
        count_of(walked::<GetStats, Building>(s, b, n).0.recipes, recipe.id()) == raised(
            count_of(s.recipes, recipe.id()),
            buildings_making(b, recipe.id(), n),
        ),
    decreases n,
{
    if n > 0 {
        lemma_buildings_counted(s, b, (n - 1) as nat, item, recipe);
        let (s1, v1) = walked::<GetStats, Building>(s, b, (n - 1) as nat);
        let x = b[n - 1];
        lemma_one_building_counted(s1, x);
        lemma_building_unchanged::<GetStats>(s1, x);
    }
}

/// **Counting a blueprint counts each building once**: after a blueprint was
/// counted, the count of a building is the number of the buildings of the
/// blueprint that are this building, and the count of a recipe is the number
/// of the buildings that make it.
pub proof fn lemma_blueprint_counted(v: BlueprintView, item: DSPItem, recipe: DSPRecipe)
    ensures
        count_of(
            <Blueprint as Visit<GetStats>>::visited(StatsView::empty(), v).0.buildings,
            item.id(),
        ) == raised(0, buildings_with(v.data.buildings, item.id(), v.data.buildings.len())),
        count_of(
            <Blueprint as Visit<GetStats>>::visited(StatsView::empty(), v).0.recipes,
            recipe.id(),
        ) == raised(0, buildings_making(v.data.buildings, recipe.id(), v.data.buildings.len())),
{
    lemma_buildings_counted(
        StatsView::empty(),
        v.data.buildings,
        v.data.buildings.len(),
        item,
        recipe,
    );
}

/// How many of the first `n` wares of a station are the item with the number
/// `id`.
pub open spec fn wares_with(wares: Seq<StationStorage>, id: u16, n: nat) -> nat
    decreases n,
{
    if n == 0 {
        0
    } else {
        wares_with(wares, id, (n - 1) as nat) + if wares[n - 1].item_id == id {
            1nat
        } else {
            0nat
        }
    }
}

/// How many of the wares of the stations among the first `n` buildings are
/// the item with the number `id`. Of each station, the wares of its kind
/// count.
pub open spec fn station_wares_with(b: Seq<BuildingView>, id: u16, n: nat) -> nat
    decreases n,
{
    if n == 0 {
        0
    } else {
        station_wares_with(b, id, (n - 1) as nat) + match b[n - 1].param {
            BuildingParamView::Station(station) => wares_with(
                station.storage,
                id,
                walked_count(station) as nat,
            ),
            _ => 0,
        }
    }
}

/// Raising a count in two steps is raising it by both at once.
proof fn lemma_raised_twice(c: usize, a: nat, b: nat)
    ensures
        raised(raised(c, a), b) == raised(c, a + b),
{
}

/// Counting the first `n` wares of a station raises the count of an item by
/// the number of times that the item is among them.
proof fn lemma_wares_counted(s: StatsView, v: Seq<StationStorage>, n: nat, item: DSPItem)
    requires
        n <= v.len(),
    ensures
        walked::<GetStats, StationStorage>(s, v, n).1 == v,
        count_of(walked::<GetStats, StationStorage>(s, v, n).0.station_wares, item.id()) == raised(
            count_of(s.station_wares, item.id()),
            wares_with(v, item.id(), n),
        ),
    decreases n,
{
    if n > 0 {
        lemma_wares_counted(s, v, (n - 1) as nat, item);
        let (s1, v1) = walked::<GetStats, StationStorage>(s, v, (n - 1) as nat);
        let x = v[n - 1];
        assert(v1.update(n - 1, x) =~= v);
        if x.item_id <= 0xffff {
            if let Some(i) = DSPItem::of_id(x.item_id as u16) {
                assert(i.id() == x.item_id);
            }
        }
    }
}

/// **Visiting a building with the pass that counts counts the wares of its
/// station**: it raises the count of a ware by the number of times that the
/// ware is among the wares of the building, where it is a station.
pub proof fn lemma_one_station_counted(s: StatsView, v: BuildingView, item: DSPItem)
    ensures
        count_of(<Building as Visit<GetStats>>::visited(s, v).0.station_wares, item.id())
            == raised(
            count_of(s.station_wares, item.id()),
            match v.param {
                BuildingParamView::Station(station) => wares_with(
                    station.storage,
                    item.id(),
                    walked_count(station) as nat,
                ),
                _ => 0,
            },
        ),
{
    let (s1, v1) = GetStats::at_building(s, v);
    if let BuildingParamView::Station(station) = v1.param {
        lemma_wares_counted(s1, station.storage, walked_count(station) as nat, item);
        let (s3, storage) = walked::<GetStats, StationStorage>(
            s1,
            station.storage,
            walked_count(station) as nat,
        );
        lemma_slots_leave_counts(s3, station.slots, station.slots.len());
    }
}

/// Counting the first `n` buildings raises the count of a ware by the number
/// of times that the ware is among the wares of their stations.
proof fn lemma_stations_counted(s: StatsView, b: Seq<BuildingView>, n: nat, item: DSPItem)
    requires
        n <= b.len(),
    ensures
        count_of(walked::<GetStats, Building>(s, b, n).0.station_wares, item.id()) == raised(
            count_of(s.station_wares, item.id()),
            station_wares_with(b, item.id(), n),
        ),
    decreases n,
{
    if n > 0 {
        lemma_stations_counted(s, b, (n - 1) as nat, item);
        lemma_buildings_counted(s, b, (n - 1) as nat, item, DSPRecipe::Gear);
        let (s1, v1) = walked::<GetStats, Building>(s, b, (n - 1) as nat);
        lemma_one_station_counted(s1, b[n - 1], item);
        lemma_raised_twice(
            count_of(s.station_wares, item.id()),
            station_wares_with(b, item.id(), (n - 1) as nat),
            (station_wares_with(b, item.id(), n) - station_wares_with(
                b,
                item.id(),
                (n - 1) as nat,
            )) as nat,
        );
    }
}

/// **Counting a blueprint counts each ware of each station once**: after a
/// blueprint was counted, the count of a ware is the number of times that
/// the ware is among the wares of the stations of the blueprint.
pub proof fn lemma_blueprint_wares_counted(v: BlueprintView, item: DSPItem)
    ensures
        count_of(
            <Blueprint as Visit<GetStats>>::visited(StatsView::empty(), v).0.station_wares,
            item.id(),
        ) == raised(0, station_wares_with(v.data.buildings, item.id(), v.data.buildings.len())),
{
    lemma_stations_counted(StatsView::empty(), v.data.buildings, v.data.buildings.len(), item);
}

/// A sequence of nodes with what a function makes of each of the first `n`
/// of them.
pub open spec fn first_mapped<V>(v: Seq<V>, n: nat, f: spec_fn(V) -> V) -> Seq<V> {
    Seq::new(
        v.len(),
        |i: int|
            if i < n {
                f(v[i])
            } else {
                v[i]
            },
    )
}

/// Where visiting a node leaves the visitor as it is, and makes of the node
/// what a function gives, visiting the first nodes of a sequence makes of
/// each of them what the function gives.
proof fn lemma_walked_maps<T: Visitor, N: Visit<T>>(
    s: T::State,
    v: Seq<N::V>,
    n: nat,
    f: spec_fn(N::V) -> N::V,
)
    requires
        n <= v.len(),
        forall|x: N::V| #[trigger] N::visited(s, x) == (s, f(x)),
    ensures
        walked::<T, N>(s, v, n) == (s, first_mapped(v, n, f)),
    decreases n,
{
    if n > 0 {
        lemma_walked_maps::<T, N>(s, v, (n - 1) as nat, f);
        assert(walked::<T, N>(s, v, n).1 =~= first_mapped(v, n, f));
    } else {
        assert(v =~= first_mapped(v, n, f));
    }
}

/// A ware of a station after items were replaced.
pub open spec fn ware_with_items(m: Seq<(DSPItem, DSPItem)>, w: StationStorage) -> StationStorage {
    StationStorage { item_id: wide_item_id_replaced(m, w.item_id), ..w }
}

/// A building after items were replaced: its filter, the wares of its kind
/// where it is a station, and its label where it is a belt with one. The
/// number of the building itself, its model and what it makes stay.
pub open spec fn building_with_items(m: Seq<(DSPItem, DSPItem)>, v: BuildingView) -> BuildingView {
    BuildingView {
        header: BuildingHeader { filter_id: item_id_replaced(m, v.header.filter_id), ..v.header },
        param: match v.param {
            BuildingParamView::Station(st) => BuildingParamView::Station(
                StationView {
                    storage: first_mapped(
                        st.storage,
                        walked_count(st) as nat,
                        |w: StationStorage| ware_with_items(m, w),
                    ),
                    ..st
                },
            ),
            BuildingParamView::Belt(Some(b)) => BuildingParamView::Belt(
                Some(Belt { label: item_icon_replaced(m, b.label), ..b }),
            ),
            other => other,
        },
    }
}

/// A blueprint after items were replaced: its icons, and each building.
pub open spec fn blueprint_with_items(m: Seq<(DSPItem, DSPItem)>, v: BlueprintView) -> BlueprintView {
    BlueprintView {
        icons: Seq::new(v.icons.len(), |k: int| item_icon_replaced(m, v.icons[k])),
        data: BlueprintDataView {
            buildings: Seq::new(
                v.data.buildings.len(),
                |k: int| building_with_items(m, v.data.buildings[k]),
            ),
            ..v.data
        },
        ..v
    }
}

/// **Visiting a building with the pass that replaces items replaces its
/// filter and what is beneath it**: the wares of its kind where it is a
/// station, the label where it is a belt.
pub proof fn lemma_items_in_building(m: Seq<(DSPItem, DSPItem)>, v: BuildingView)
    ensures
        <Building as Visit<ReplaceItem>>::visited(m, v) == (m, building_with_items(m, v)),
{
    let (s1, v1) = ReplaceItem::at_building(m, v);
    match v1.param {
        BuildingParamView::Station(st) => {
            let n = walked_count(st) as nat;
            let f = |w: StationStorage| ware_with_items(m, w);
            lemma_walked_maps::<ReplaceItem, StationStorage>(m, st.storage, n, f);
            lemma_walked_maps::<ReplaceItem, StationSlots>(
                m,
                st.slots,
                st.slots.len(),
                |x: StationSlots| x,
            );
            assert(first_mapped(st.slots, st.slots.len(), |x: StationSlots| x) =~= st.slots);
        },
        _ => {},
    }
}

/// **Replacing items replaces them all through a blueprint**: in its icons,
/// and in each of its buildings.
pub proof fn lemma_items_in_blueprint(m: Seq<(DSPItem, DSPItem)>, v: BlueprintView)
    ensures
        <Blueprint as Visit<ReplaceItem>>::visited(m, v) == (m, blueprint_with_items(m, v)),
{
    let f = |b: BuildingView| building_with_items(m, b);
    assert forall|b: BuildingView| #[trigger]
        <Building as Visit<ReplaceItem>>::visited(m, b) == (m, f(b)) by {
        lemma_items_in_building(m, b);
    }
    let (s1, v1) = ReplaceItem::at_blueprint(m, v);
    lemma_walked_maps::<ReplaceItem, Building>(m, v1.data.buildings, v1.data.buildings.len(), f);
    assert(first_mapped(v1.data.buildings, v1.data.buildings.len(), f) =~= blueprint_with_items(
        m,
        v,
    ).data.buildings);
}

/// A building after recipes were replaced: what it makes, and its label
/// where it is a belt with one.
pub open spec fn building_with_recipes(
    m: Seq<(DSPRecipe, DSPRecipe)>,
    v: BuildingView,
) -> BuildingView {
    BuildingView {
        header: BuildingHeader {
            recipe_id: recipe_id_replaced(m, v.header.recipe_id),
            ..v.header
        },
        param: match v.param {
            BuildingParamView::Belt(Some(b)) => BuildingParamView::Belt(
                Some(Belt { label: recipe_icon_replaced(m, b.label), ..b }),
            ),
            other => other,
        },
    }
}

/// A blueprint after recipes were replaced: its icons, and each building.
pub open spec fn blueprint_with_recipes(
    m: Seq<(DSPRecipe, DSPRecipe)>,
    v: BlueprintView,
) -> BlueprintView {
    BlueprintView {
        icons: Seq::new(v.icons.len(), |k: int| recipe_icon_replaced(m, v.icons[k])),
        data: BlueprintDataView {
            buildings: Seq::new(
                v.data.buildings.len(),
                |k: int| building_with_recipes(m, v.data.buildings[k]),
            ),
            ..v.data
        },
        ..v
    }
}

/// **Visiting a building with the pass that replaces recipes replaces what
/// the building makes and the label beneath it.** A station stays as it is.
pub proof fn lemma_recipes_in_building(m: Seq<(DSPRecipe, DSPRecipe)>, v: BuildingView)
    ensures
        <Building as Visit<ReplaceRecipe>>::visited(m, v) == (m, building_with_recipes(m, v)),
{
    let (s1, v1) = ReplaceRecipe::at_building(m, v);
    match v1.param {
        BuildingParamView::Station(st) => {
            lemma_walked_maps::<ReplaceRecipe, StationStorage>(
                m,
                st.storage,
                walked_count(st) as nat,
                |x: StationStorage| x,
            );
            lemma_walked_maps::<ReplaceRecipe, StationSlots>(
                m,
                st.slots,
                st.slots.len(),
                |x: StationSlots| x,
            );
            assert(first_mapped(st.storage, walked_count(st) as nat, |x: StationStorage| x)
                =~= st.storage);
            assert(first_mapped(st.slots, st.slots.len(), |x: StationSlots| x) =~= st.slots);
        },
        _ => {},
    }
}

/// **Replacing recipes replaces them all through a blueprint**: in its
/// icons, and in each of its buildings.
pub proof fn lemma_recipes_in_blueprint(m: Seq<(DSPRecipe, DSPRecipe)>, v: BlueprintView)
    ensures
        <Blueprint as Visit<ReplaceRecipe>>::visited(m, v) == (m, blueprint_with_recipes(m, v)),
{
    let f = |b: BuildingView| building_with_recipes(m, b);
    assert forall|b: BuildingView| #[trigger]
        <Building as Visit<ReplaceRecipe>>::visited(m, b) == (m, f(b)) by {
        lemma_recipes_in_building(m, b);
    }
    let (s1, v1) = ReplaceRecipe::at_blueprint(m, v);
    lemma_walked_maps::<ReplaceRecipe, Building>(m, v1.data.buildings, v1.data.buildings.len(), f);
    assert(first_mapped(v1.data.buildings, v1.data.buildings.len(), f) =~= blueprint_with_recipes(
        m,
        v,
    ).data.buildings);
}

/// A blueprint after buildings were replaced: each building has the number
/// and the model of the building that is put for it. The icons, and what is
/// beneath the buildings, stay.
pub open spec fn blueprint_with_buildings(
    m: Seq<(DSPItem, DSPItem)>,
    v: BlueprintView,
) -> BlueprintView {
    BlueprintView {
        data: BlueprintDataView {
            buildings: Seq::new(
                v.data.buildings.len(),
                |k: int|
                    BuildingView {
                        header: building_replaced(m, v.data.buildings[k].header),
                        ..v.data.buildings[k]
                    },
            ),
            ..v.data
        },
        ..v
    }
}

/// **Visiting a building with the pass that replaces buildings replaces
/// the building, and nothing beneath it.**
pub proof fn lemma_building_in_building(m: Seq<(DSPItem, DSPItem)>, v: BuildingView)
    ensures
        <Building as Visit<ReplaceBuilding>>::visited(m, v) == (
            m,
            BuildingView { header: building_replaced(m, v.header), ..v },
        ),
{
    let (s1, v1) = ReplaceBuilding::at_building(m, v);
    match v1.param {
        BuildingParamView::Station(st) => {
            lemma_walked_maps::<ReplaceBuilding, StationStorage>(
                m,
                st.storage,
                walked_count(st) as nat,
                |x: StationStorage| x,
            );
            lemma_walked_maps::<ReplaceBuilding, StationSlots>(
                m,
                st.slots,
                st.slots.len(),
                |x: StationSlots| x,
            );
            assert(first_mapped(st.storage, walked_count(st) as nat, |x: StationStorage| x)
                =~= st.storage);
            assert(first_mapped(st.slots, st.slots.len(), |x: StationSlots| x) =~= st.slots);
        },
        _ => {},
    }
}

/// **Replacing buildings replaces each building of a blueprint.**
pub proof fn lemma_buildings_in_blueprint(m: Seq<(DSPItem, DSPItem)>, v: BlueprintView)
    ensures
        <Blueprint as Visit<ReplaceBuilding>>::visited(m, v) == (
            m,
            blueprint_with_buildings(m, v),
        ),
{
    let f = |b: BuildingView| BuildingView { header: building_replaced(m, b.header), ..b };
    assert forall|b: BuildingView| #[trigger]
        <Building as Visit<ReplaceBuilding>>::visited(m, b) == (m, f(b)) by {
        lemma_building_in_building(m, b);
    }
    lemma_walked_maps::<ReplaceBuilding, Building>(
        m,
        v.data.buildings,
        v.data.buildings.len(),
        f,
    );
    assert(first_mapped(v.data.buildings, v.data.buildings.len(), f) =~= blueprint_with_buildings(
        m,
        v,
    ).data.buildings);
}

} // verus!
