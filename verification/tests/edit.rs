use dspbp::blueprint::Blueprint;
use dspbp::data::belt::Belt;
use dspbp::data::blueprint::{BlueprintData, BuildingCount, Header};
use dspbp::data::building::{Building, BuildingHeader, BuildingParam};
use dspbp::data::enums::{DSPItem, DSPRecipe};
use dspbp::data::station::{Station, StationHeader, StationSlots, StationStorage};
use dspbp::data::visit::{Pass, Visit, Visitor};
use dspbp::edit::replace::{map_using_map, ri, ReplaceBuilding, ReplaceItem, ReplaceRecipe};
use dspbp::edit::stats::GetStats;
use dspbp::edit::EditBlueprint;
use dspbp::error::Error;
use dspbp::stats::Stats;

fn building(item_id: u16, recipe_id: u16, filter_id: u16, param: BuildingParam) -> Building {
    let parameter_count = match &param {
        BuildingParam::Station(_) => 96,
        BuildingParam::Belt(Some(_)) => 2,
        BuildingParam::Belt(None) => 0,
        BuildingParam::Unknown(w) => w.len() as u16,
    };
    Building {
        header: BuildingHeader {
            index: 0,
            area_index: 0,
            local_offset_x: 0,
            local_offset_y: 0,
            local_offset_z: 0,
            local_offset_x2: 0,
            local_offset_y2: 0,
            local_offset_z2: 0,
            yaw: 0,
            yaw2: 0,
            item_id,
            model_index: 1,
            output_object_index: 0,
            input_object_index: 0,
            output_to_slot: 0,
            input_from_slot: 0,
            output_from_slot: 0,
            input_to_slot: 0,
            output_offset: 0,
            input_offset: 0,
            recipe_id,
            filter_id,
            parameter_count,
        },
        param,
    }
}

fn ware(item_id: u32) -> StationStorage {
    StationStorage { item_id, local_logic: 0, remote_logic: 0, max_count: 0, unused1: 0, unused2: 0 }
}

fn station(wares: &[u32], is_interstellar: bool) -> Station {
    Station {
        is_interstellar,
        storage: wares.iter().map(|w| ware(*w)).collect(),
        unknown1: vec![0; 128 - 24 * wares.len()],
        header: StationHeader {
            work_energy_per_tick: 0,
            drone_range: 0,
            vessel_range: 0,
            orbital_collector: 0,
            warp_distance: 0,
            equip_warper: 0,
            drone_min_capacity: 0,
            vessel_min_capacity: 0,
        },
        unknown2: vec![0; 32],
        slots: vec![StationSlots { direction: 0, storage_index: 0, unused1: 0, unused2: 0 }; 12],
        unknown3: vec![],
    }
}

fn blueprint() -> Blueprint {
    let buildings = vec![
        building(2001, 0, 1001, BuildingParam::Belt(Some(Belt { label: 1001, count: 1 }))),
        building(2001, 0, 0, BuildingParam::Belt(Some(Belt { label: 20005, count: 2 }))),
        building(2002, 0, 0, BuildingParam::Belt(None)),
        building(2303, 5, 0, BuildingParam::Unknown(vec![])),
        building(2303, 5, 1002, BuildingParam::Unknown(vec![1001])),
        building(2302, 1, 0, BuildingParam::Unknown(vec![])),
        building(2104, 0, 0, BuildingParam::Station(station(&[1001, 1002, 9999, 70000, 1001], true))),
        building(2103, 0, 0, BuildingParam::Station(station(&[1001, 1002, 1101, 1001, 1001], false))),
        building(9999, 9999, 9999, BuildingParam::Unknown(vec![])),
    ];
    Blueprint {
        layout: 1,
        icons: [1001, 20005, 500, 1008, 21001],
        timestamp: 2,
        game_version: "v".to_string(),
        icon_text: "t".to_string(),
        desc: "d".to_string(),
        data: BlueprintData {
            header: Header {
                version: 1,
                cursor_offset_x: 0,
                cursor_offset_y: 0,
                cursor_target_area: 0,
                dragbox_size_x: 0,
                dragbox_size_y: 0,
                primary_area_index: 0,
                area_count: 0,
            },
            areas: vec![],
            building_count: BuildingCount { count: buildings.len() as u32 },
            buildings,
        },
    }
}

fn wares(b: &Building) -> Vec<u32> {
    match &b.param {
        BuildingParam::Station(s) => s.storage.iter().map(|w| w.item_id).collect(),
        _ => panic!(),
    }
}

#[test]
fn what_is_put_for_what() {
    let m = map_using_map(vec![
        (DSPItem::IronOre, DSPItem::CopperOre),
        (DSPItem::Gear, DSPItem::Gear),
        (DSPItem::IronOre, DSPItem::Stone),
    ]);
    // The last pair of a thing counts.
    assert_eq!(m.apply(DSPItem::IronOre), DSPItem::Stone);
    assert_eq!(m.apply(DSPItem::Gear), DSPItem::Gear);
    assert_eq!(m.apply(DSPItem::CopperOre), DSPItem::CopperOre);
    assert_eq!(m.pairs().len(), 3);
    assert_eq!(ri(&m, 1001), 1005);
    assert_eq!(ri(&m, 1002), 1002);
    assert_eq!(ri(&m, 9999), 9999);
    let none = map_using_map::<DSPItem>(vec![]);
    assert_eq!(none.apply(DSPItem::IronOre), DSPItem::IronOre);
}

#[test]
fn items_are_replaced_everywhere() {
    let mut e = EditBlueprint::new(blueprint());
    e.replace_item(vec![(DSPItem::IronOre, DSPItem::CopperOre)]);
    let bp = e.0;
    assert_eq!(bp.icons, [1002, 20005, 500, 1008, 21001]);
    let b = &bp.data.buildings;
    assert_eq!(b[0].header.filter_id, 1002);
    assert_eq!(b[0].param, BuildingParam::Belt(Some(Belt { label: 1002, count: 1 })));
    assert_eq!(b[1].param, BuildingParam::Belt(Some(Belt { label: 20005, count: 2 })));
    assert_eq!(b[4].header.filter_id, 1002);
    // Words that are not understood are not touched, whatever they hold.
    assert_eq!(b[4].param, BuildingParam::Unknown(vec![1001]));
    assert_eq!(wares(&b[6]), vec![1002, 1002, 9999, 70000, 1002]);
    // Only the wares that a station of its kind has are looked at.
    assert_eq!(wares(&b[7]), vec![1002, 1002, 1101, 1001, 1001]);
    // Nothing else has changed.
    let mut expected = blueprint();
    expected.icons[0] = 1002;
    expected.data.buildings[0] = b[0].clone();
    expected.data.buildings[4] = b[4].clone();
    expected.data.buildings[6] = b[6].clone();
    expected.data.buildings[7] = b[7].clone();
    assert_eq!(bp, expected);
}

#[test]
fn a_number_that_the_catalog_does_not_hold_is_left_alone() {
    let m = map_using_map(vec![(DSPItem::IronOre, DSPItem::CopperOre)]);
    let mut pass = ReplaceItem::new(&m);
    for id in [0u32, 999, 1008, 9999, 65535, 65536, 70000, 66537, u32::MAX] {
        let mut w = ware(id);
        pass.visit_station_storage(&mut w);
        assert_eq!(w, ware(id));
        assert_eq!(pass.replace_wide_item(id), id);
    }
    let mut w = ware(1001);
    pass.visit_station_storage(&mut w);
    assert_eq!(w, ware(1002));
    assert_eq!(pass.replace_item(9999), 9999);
    assert_eq!(pass.replace_item(1001), 1002);
    assert_eq!(pass.replace_icon(1008), 1008);
    assert_eq!(pass.replace_icon(1001), 1002);
    assert_eq!(pass.replace_icon(21001), 21001);
    assert_eq!(pass.replace_icon(500), 500);
    let mut b = building(9999, 9999, 9999, BuildingParam::Unknown(vec![]));
    pass.visit_building(&mut b);
    assert_eq!(b, building(9999, 9999, 9999, BuildingParam::Unknown(vec![])));
}

#[test]
fn recipes_are_replaced_everywhere() {
    let mut e = EditBlueprint::new(blueprint());
    e.replace_recipe(vec![(DSPRecipe::Gear, DSPRecipe::MagneticCoil)]);
    let bp = e.0;
    assert_eq!(bp.icons, [1001, 20006, 500, 1008, 21001]);
    let b = &bp.data.buildings;
    assert_eq!(b[1].param, BuildingParam::Belt(Some(Belt { label: 20006, count: 2 })));
    assert_eq!(b[3].header.recipe_id, 6);
    assert_eq!(b[4].header.recipe_id, 6);
    assert_eq!(b[5].header.recipe_id, 1);
    assert_eq!(b[8].header.recipe_id, 9999);
    let mut expected = blueprint();
    expected.icons[1] = 20006;
    expected.data.buildings[1] = b[1].clone();
    expected.data.buildings[3].header.recipe_id = 6;
    expected.data.buildings[4].header.recipe_id = 6;
    assert_eq!(bp, expected);
    let m = map_using_map(vec![(DSPRecipe::Gear, DSPRecipe::MagneticCoil)]);
    let pass = ReplaceRecipe::new(&m);
    let mut id = 5u16;
    pass.replace_recipe(&mut id);
    assert_eq!(id, 6);
    let mut id = 9999u16;
    pass.replace_recipe(&mut id);
    assert_eq!(id, 9999);
    let mut icon = 20005u32;
    pass.replace_icon(&mut icon);
    assert_eq!(icon, 20006);
    let mut icon = 1001u32;
    pass.replace_icon(&mut icon);
    assert_eq!(icon, 1001);
}

#[test]
fn items_and_their_recipes_are_replaced_together() {
    let mut e = EditBlueprint::new(blueprint());
    e.replace_both(vec![
        (DSPItem::Gear, DSPItem::MagneticCoil),
        // An ore has no recipe: only the item is replaced.
        (DSPItem::IronOre, DSPItem::Gear),
    ]);
    let bp = e.0;
    assert_eq!(bp.icons, [1201, 20006, 500, 1008, 21001]);
    assert_eq!(bp.data.buildings[0].header.filter_id, 1201);
    assert_eq!(bp.data.buildings[3].header.recipe_id, 6);
    assert_eq!(
        EditBlueprint::recipes_of(&vec![
            (DSPItem::Gear, DSPItem::MagneticCoil),
            (DSPItem::IronOre, DSPItem::Gear),
            (DSPItem::Gear, DSPItem::IronOre),
            (DSPItem::Prism, DSPItem::Gear),
        ]),
        vec![(DSPRecipe::Gear, DSPRecipe::MagneticCoil), (DSPRecipe::Prism, DSPRecipe::Gear)]
    );
}

#[test]
fn buildings_are_replaced_with_their_models() {
    let mut e = EditBlueprint::new(blueprint());
    let r = e.replace_building(vec![
        (DSPItem::ConveyorBeltMKI, DSPItem::ConveyorBeltMKIII),
        (DSPItem::AssemblingMachineMkI, DSPItem::AssemblingMachineMkII),
    ]);
    assert_eq!(r, Ok(()));
    let bp = e.0;
    let b = &bp.data.buildings;
    assert_eq!((b[0].header.item_id, b[0].header.model_index), (2003, 37));
    assert_eq!((b[1].header.item_id, b[1].header.model_index), (2003, 37));
    assert_eq!((b[2].header.item_id, b[2].header.model_index), (2002, 1));
    assert_eq!((b[3].header.item_id, b[3].header.model_index), (2304, 66));
    assert_eq!((b[5].header.item_id, b[5].header.model_index), (2302, 1));
    assert_eq!((b[8].header.item_id, b[8].header.model_index), (9999, 1));
    assert_eq!(bp.icons, blueprint().icons);
    assert_eq!(b[0].param, blueprint().data.buildings[0].param);
    assert_eq!(b[6], blueprint().data.buildings[6]);
    // The blueprint can still be written and read.
    let read = Blueprint::new(&bp.into_bp_string().unwrap()).unwrap();
    assert_eq!(read.data.buildings[0], b[0]);
    assert_eq!(read.data.buildings[3], b[3]);
    assert_eq!(Blueprint::new(&read.into_bp_string().unwrap()).unwrap(), read);
}

#[test]
fn a_building_is_not_replaced_by_one_of_another_class() {
    let mut e = EditBlueprint::new(blueprint());
    let r = e.replace_building(vec![
        (DSPItem::ConveyorBeltMKI, DSPItem::ConveyorBeltMKIII),
        (DSPItem::AssemblingMachineMkI, DSPItem::ConveyorBeltMKI),
        (DSPItem::IronOre, DSPItem::CopperOre),
    ]);
    assert_eq!(r, Err(Error::InvalidReplacement(2303, 2001)));
    // Nothing was changed, not even by the pair that is in order.
    assert_eq!(e.0, blueprint());
    let ore = map_using_map(vec![(DSPItem::IronOre, DSPItem::IronOre)]);
    assert_eq!(EditBlueprint::first_invalid(&ore), Some((DSPItem::IronOre, DSPItem::IronOre)));
    let smelter = map_using_map(vec![(DSPItem::ArcSmelter, DSPItem::PlaneSmelter)]);
    assert_eq!(EditBlueprint::first_invalid(&smelter), None);
    assert_eq!(e.replace_building(vec![]), Ok(()));
    assert_eq!(e.0, blueprint());
}

#[test]
fn only_the_last_pair_of_a_building_counts() {
    let mut e = EditBlueprint::new(blueprint());
    let r = e.replace_building(vec![
        (DSPItem::ConveyorBeltMKI, DSPItem::SorterMKI),
        (DSPItem::ConveyorBeltMKI, DSPItem::ConveyorBeltMKII),
    ]);
    assert_eq!(r, Ok(()));
    assert_eq!(e.0.data.buildings[0].header.item_id, 2002);
    let r = e.replace_building(vec![
        (DSPItem::ConveyorBeltMKII, DSPItem::ConveyorBeltMKI),
        (DSPItem::ConveyorBeltMKII, DSPItem::SorterMKI),
    ]);
    assert_eq!(r, Err(Error::InvalidReplacement(2002, 2011)));
    assert_eq!(e.0.data.buildings[0].header.item_id, 2002);
}

#[test]
fn a_building_without_a_model_keeps_its_model() {
    // The pass itself does not ask for classes: it replaces what it is told
    // to, and leaves the model where it knows none.
    let m = map_using_map(vec![(DSPItem::ChemicalPlant, DSPItem::OilRefinery)]);
    let mut pass = ReplaceBuilding::new(&m);
    let mut b = building(2309, 0, 0, BuildingParam::Unknown(vec![]));
    pass.visit_building(&mut b);
    assert_eq!((b.header.item_id, b.header.model_index), (2308, 1));
    assert_eq!(pass.replace_bp_model(&mut b, DSPItem::OilRefinery), Err(Error::MissingModel));
    assert_eq!(b.header.model_index, 1);
    assert_eq!(pass.replace_bp_model(&mut b, DSPItem::SorterMKII), Ok(()));
    assert_eq!(b.header.model_index, 42);
    let mut belt = building(2001, 0, 0, BuildingParam::Belt(None));
    pass.replace_building(&mut belt);
    assert_eq!(belt, building(2001, 0, 0, BuildingParam::Belt(None)));
}

#[test]
fn what_a_blueprint_holds_is_counted() {
    let mut stats = GetStats::new();
    let mut bp = blueprint();
    stats.visit_blueprint(&mut bp);
    assert_eq!(bp, blueprint());
    let s = &stats.0;
    assert_eq!(s.building_count(DSPItem::ConveyorBeltMKI), 2);
    assert_eq!(s.building_count(DSPItem::ConveyorBeltMKII), 1);
    assert_eq!(s.building_count(DSPItem::AssemblingMachineMkI), 2);
    assert_eq!(s.building_count(DSPItem::InterstellarLogisticsStation), 1);
    assert_eq!(s.building_count(DSPItem::IronOre), 0);
    assert_eq!(s.recipe_count(DSPRecipe::Gear), 2);
    assert_eq!(s.recipe_count(DSPRecipe::IronIngot), 1);
    assert_eq!(s.recipe_count(DSPRecipe::Magnet), 0);
    assert_eq!(s.station_ware_count(DSPItem::IronOre), 3);
    assert_eq!(s.station_ware_count(DSPItem::CopperOre), 2);
    assert_eq!(s.station_ware_count(DSPItem::IronIngot), 1);
    assert_eq!(s.buildings.len(), 6);
    assert_eq!(s.recipes.len(), 2);
    assert_eq!(s.station_wares.len(), 3);
}

#[test]
fn the_counts_are_written_in_the_order_of_the_numbers() {
    let mut e = EditBlueprint::new(blueprint());
    let text = e.info().unwrap();
    assert_eq!(
        text,
        "Buildings:\n\
         ConveyorBeltMKI: 2\n\
         ConveyorBeltMKII: 1\n\
         PlanetaryLogisticsStation: 1\n\
         InterstellarLogisticsStation: 1\n\
         ArcSmelter: 1\n\
         AssemblingMachineMkI: 2\n\
         \n\
         Recipes:\n\
         IronIngot: 1\n\
         Gear: 2\n\
         \n\
         Logistic station wares:\n\
         IronOre: 3\n\
         CopperOre: 2\n\
         IronIngot: 1\n"
    );
    assert_eq!(e.0, blueprint());
    assert_eq!(
        Stats::new().to_text(),
        "Buildings:\n\nRecipes:\n\nLogistic station wares:\n"
    );
}

#[test]
fn counts_are_kept_by_number() {
    let mut s = Stats::new();
    s.add_building(DSPItem::Gear);
    s.add_building(DSPItem::Gear);
    s.add_recipe(DSPRecipe::Gear);
    s.add_station_ware(DSPItem::Water);
    assert_eq!(s.buildings.get(&1201), Some(&2));
    assert_eq!(s.recipes.get(&5), Some(&1));
    assert_eq!(s.station_wares.get(&1000), Some(&1));
    assert_eq!(s.building_count(DSPItem::Gear), 2);
    // A count that cannot be raised stays as it is.
    s.buildings.insert(1201, usize::MAX);
    s.add_building(DSPItem::Gear);
    assert_eq!(s.building_count(DSPItem::Gear), usize::MAX);
}

#[test]
fn the_texts_of_an_edited_blueprint() {
    let mut e = EditBlueprint::new(blueprint());
    e.set_icon_text("a b");
    assert_eq!(e.0.icon_text, "a%20b");
    assert_eq!(e.get_icon_text().unwrap(), "a b");
    assert_eq!(e.get_description().unwrap(), "d");
}

#[test]
fn visiting_a_building_goes_on_to_what_is_beneath_it() {
    let m = map_using_map(vec![(DSPItem::IronOre, DSPItem::CopperOre)]);
    let mut pass = ReplaceItem::new(&m);
    // The filter of the building, and the wares of its station.
    let mut b =
        building(2103, 0, 1001, BuildingParam::Station(station(&[1001, 1101, 1001, 1001], false)));
    pass.visit_building(&mut b);
    assert_eq!(
        b,
        building(2103, 0, 1002, BuildingParam::Station(station(&[1002, 1101, 1002, 1001], false)))
    );
    // The label of a belt.
    let mut b = building(2001, 0, 1001, BuildingParam::Belt(Some(Belt { label: 1001, count: 3 })));
    pass.visit_building(&mut b);
    assert_eq!(
        b,
        building(2001, 0, 1002, BuildingParam::Belt(Some(Belt { label: 1002, count: 3 })))
    );
    // The number of the building itself is no ware.
    let mut b = building(1001, 1001, 0, BuildingParam::Unknown(vec![1001]));
    pass.visit_building(&mut b);
    assert_eq!(b, building(1001, 1001, 0, BuildingParam::Unknown(vec![1001])));
}

#[test]
fn the_children_of_a_node_are_visited_without_the_node() {
    let m = map_using_map(vec![(DSPItem::IronOre, DSPItem::CopperOre)]);
    let mut pass = ReplaceItem::new(&m);
    // The building's own filter stays; what is beneath it is visited.
    let mut b =
        building(2104, 0, 1001, BuildingParam::Station(station(&[1001, 1001, 1001, 1001, 1001], true)));
    b.visit(&mut pass);
    assert_eq!(
        b,
        building(2104, 0, 1001, BuildingParam::Station(station(&[1002, 1002, 1002, 1002, 1002], true)))
    );
    // The wares of a station of a planet are three, whatever it holds.
    let mut st = station(&[1001, 1001, 1001, 1001, 1001], false);
    st.visit(&mut pass);
    assert_eq!(st, station(&[1002, 1002, 1002, 1001, 1001], false));
    // Nothing is beneath a ware or a label.
    let mut w = ware(1001);
    w.visit(&mut pass);
    assert_eq!(w, ware(1001));
    w.accept(&mut pass);
    assert_eq!(w, ware(1002));
    let mut label = Belt { label: 1001, count: 1 };
    label.visit(&mut pass);
    assert_eq!(label, Belt { label: 1001, count: 1 });
    pass.visit_belt(&mut label);
    assert_eq!(label, Belt { label: 1002, count: 1 });
    // The icons of a blueprint are the blueprint's own.
    let mut bp = blueprint();
    bp.visit(&mut pass);
    assert_eq!(bp.icons, blueprint().icons);
    let mut visited = blueprint();
    pass.visit_blueprint(&mut visited);
    assert_eq!(visited.data, bp.data);
    assert_ne!(visited.icons, blueprint().icons);
}

#[test]
fn visiting_a_building_counts_the_wares_of_its_station() {
    let mut stats = GetStats::new();
    let mut b =
        building(2103, 5, 0, BuildingParam::Station(station(&[1001, 9999, 1001, 1002], false)));
    stats.visit_building(&mut b);
    assert_eq!(
        b,
        building(2103, 5, 0, BuildingParam::Station(station(&[1001, 9999, 1001, 1002], false)))
    );
    let s = &stats.0;
    assert_eq!(s.building_count(DSPItem::PlanetaryLogisticsStation), 1);
    assert_eq!(s.recipe_count(DSPRecipe::Gear), 1);
    assert_eq!(s.station_ware_count(DSPItem::IronOre), 2);
    assert_eq!(s.station_ware_count(DSPItem::CopperOre), 0);
    assert_eq!(s.buildings.len(), 1);
    assert_eq!(s.recipes.len(), 1);
    assert_eq!(s.station_wares.len(), 1);
    // Acting at the building alone counts the building and its recipe.
    let mut stats = GetStats::new();
    stats.on_building(&mut b);
    assert_eq!(stats.0.building_count(DSPItem::PlanetaryLogisticsStation), 1);
    assert_eq!(stats.0.recipe_count(DSPRecipe::Gear), 1);
    assert_eq!(stats.0.station_wares.len(), 0);
    // The children alone: the wares.
    let mut stats = GetStats::new();
    b.visit(&mut stats);
    assert_eq!(stats.0.buildings.len(), 0);
    assert_eq!(stats.0.station_ware_count(DSPItem::IronOre), 2);
}
