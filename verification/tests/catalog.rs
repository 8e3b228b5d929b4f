use dspbp::data::building::b_is;
use dspbp::data::enums::{BPModel, BuildingClass, DSPIcon, DSPItem, DSPRecipe};
use dspbp::data::traits::{DSPEnum, TryFromUserString};
use dspbp::error::Error;

#[test]
fn items_have_numbers() {
    assert_eq!(DSPItem::IronOre.to_u16(), 1001);
    assert_eq!(DSPItem::Water.to_u16(), 1000);
    assert_eq!(DSPItem::AccumulatorFull.to_u16(), 2207);
    assert_eq!(DSPItem::try_from(1001), Ok(DSPItem::IronOre));
    assert_eq!(DSPItem::try_from(6006), Ok(DSPItem::UniverseMatrix));
    assert_eq!(DSPItem::try_from(0), Err(Error::UnknownIdentifier));
    assert_eq!(DSPItem::try_from(1008), Err(Error::UnknownIdentifier));
    assert_eq!(DSPItem::try_from(u16::MAX), Err(Error::UnknownIdentifier));
}

#[test]
fn every_number_leads_back_to_itself() {
    let mut items = 0;
    let mut recipes = 0;
    let mut models = 0;
    for n in 0..=u16::MAX {
        if let Ok(item) = DSPItem::try_from(n) {
            assert_eq!(item.to_u16(), n);
            assert_eq!(DSPItem::from_name(item.name()), Some(item));
            items += 1;
        }
        if let Ok(recipe) = DSPRecipe::try_from(n) {
            assert_eq!(recipe.to_u16(), n);
            assert_eq!(DSPRecipe::from_name(recipe.name()), Some(recipe));
            recipes += 1;
        }
        if let Ok(model) = BPModel::try_from(n) {
            assert_eq!(model.to_u16(), n);
            models += 1;
        }
    }
    assert_eq!(items, 126);
    assert_eq!(recipes, 119);
    assert_eq!(models, 11);
}

#[test]
fn recipes_have_numbers() {
    assert_eq!(DSPRecipe::Gear.to_u16(), 5);
    assert_eq!(DSPRecipe::AutomaticPiler.to_u16(), 120);
    assert_eq!(DSPRecipe::try_from(1), Ok(DSPRecipe::IronIngot));
    assert_eq!(DSPRecipe::try_from(0), Err(Error::UnknownIdentifier));
    assert_eq!(DSPRecipe::try_from(105), Err(Error::UnknownIdentifier));
    assert_eq!(DSPRecipe::try_from(121), Err(Error::UnknownIdentifier));
}

#[test]
fn things_have_names() {
    assert_eq!(DSPItem::IronOre.name(), "IronOre");
    assert_eq!(DSPItem::ConveyorBeltMKIII.name(), "ConveyorBeltMKIII");
    assert_eq!(DSPRecipe::CasimirCrystalAdvanced.name(), "CasimirCrystalAdvanced");
    assert_eq!(DSPItem::from_name("SorterMKII"), Some(DSPItem::SorterMKII));
    assert_eq!(DSPItem::from_name("sorterMKII"), None);
    assert_eq!(DSPItem::from_name(""), None);
    assert_eq!(DSPItem::from_name("GrapheneAdvanced"), None);
    assert_eq!(DSPRecipe::from_name("GrapheneAdvanced"), Some(DSPRecipe::GrapheneAdvanced));
    assert_eq!(DSPItem::try_from_user_string("Gear"), Ok(DSPItem::Gear));
    assert_eq!(
        DSPRecipe::try_from_user_string("Gears"),
        Err(Error::UnknownName("Gears".to_string(), "recipe"))
    );
    assert_eq!(DSPItem::pretty_name(), "item");
    assert_eq!(DSPRecipe::pretty_name(), "recipe");
    assert_eq!(DSPItem::from_underlying(1201), Some(DSPItem::Gear));
    assert_eq!(DSPItem::Gear.underlying(), 1201);
    assert_eq!(DSPRecipe::from_title("Gear"), Some(DSPRecipe::Gear));
    assert_eq!(DSPRecipe::from_underlying(1201), None);
}

#[test]
fn the_recipe_of_an_item() {
    assert_eq!(DSPRecipe::for_item(&DSPItem::Gear), Some(DSPRecipe::Gear));
    assert_eq!(DSPRecipe::for_item(&DSPItem::ArcSmelter), Some(DSPRecipe::ArcSmelter));
    // Ores are dug, not made.
    assert_eq!(DSPRecipe::for_item(&DSPItem::IronOre), None);
    // The recipe of this item goes by another name.
    assert_eq!(DSPRecipe::for_item(&DSPItem::ThermalPowerStation), None);
}

#[test]
fn kinds_of_items() {
    assert!(DSPItem::ConveyorBeltMKI.is_belt());
    assert!(DSPItem::ConveyorBeltMKII.is_belt());
    assert!(DSPItem::ConveyorBeltMKIII.is_belt());
    assert!(!DSPItem::SorterMKI.is_belt());
    assert!(DSPItem::PlanetaryLogisticsStation.is_station());
    assert!(DSPItem::InterstellarLogisticsStation.is_station());
    assert!(!DSPItem::OrbitalCollector.is_station());
    assert!(DSPItem::InterstellarLogisticsStation.is_interstellar_station());
    assert!(!DSPItem::PlanetaryLogisticsStation.is_interstellar_station());
    assert!(b_is(2103, DSPItem::is_station));
    assert!(!b_is(2103, DSPItem::is_interstellar_station));
    assert!(b_is(2003, DSPItem::is_belt));
    assert!(!b_is(9999, DSPItem::is_belt));
    assert!(!b_is(9999, |_: &DSPItem| true));
    assert!(b_is(1001, |_: &DSPItem| true));
}

#[test]
fn icon_numbers_fall_into_ranges() {
    assert_eq!(DSPIcon::try_from(500), Ok(DSPIcon::Signal(500)));
    assert_eq!(DSPIcon::try_from(1001), Ok(DSPIcon::Item(DSPItem::IronOre)));
    assert_eq!(DSPIcon::try_from(20005), Ok(DSPIcon::Recipe(DSPRecipe::Gear)));
    assert_eq!(DSPIcon::try_from(45000), Ok(DSPIcon::Tech(5000)));
    assert_eq!(DSPIcon::try_from(70000), Ok(DSPIcon::Unknown(70000)));
    for n in [500u32, 1001, 20005, 45000, 70000] {
        assert_eq!(u32::from(DSPIcon::try_from(n).unwrap()), n);
        assert_eq!(DSPIcon::try_from(n).unwrap().to_u32(), n);
    }
}

#[test]
fn icon_numbers_at_the_ends_of_the_ranges() {
    assert_eq!(DSPIcon::try_from(0), Ok(DSPIcon::Signal(0)));
    assert_eq!(DSPIcon::try_from(999), Ok(DSPIcon::Signal(999)));
    assert_eq!(DSPIcon::try_from(1000), Ok(DSPIcon::Item(DSPItem::Water)));
    assert_eq!(DSPIcon::try_from(1008), Err(Error::UnknownIdentifier));
    assert_eq!(DSPIcon::try_from(19999), Err(Error::UnknownIdentifier));
    assert_eq!(DSPIcon::try_from(20000), Err(Error::UnknownIdentifier));
    assert_eq!(DSPIcon::try_from(20001), Ok(DSPIcon::Recipe(DSPRecipe::IronIngot)));
    assert_eq!(DSPIcon::try_from(39999), Err(Error::UnknownIdentifier));
    assert_eq!(DSPIcon::try_from(40000), Ok(DSPIcon::Tech(0)));
    assert_eq!(DSPIcon::try_from(59999), Ok(DSPIcon::Tech(19999)));
    assert_eq!(DSPIcon::try_from(60000), Ok(DSPIcon::Unknown(60000)));
    assert_eq!(DSPIcon::try_from(u32::MAX), Ok(DSPIcon::Unknown(u32::MAX)));
    assert_eq!(u32::from(DSPIcon::Recipe(DSPRecipe::AutomaticPiler)), 20120);
    assert_eq!(u32::from(DSPIcon::Item(DSPItem::AccumulatorFull)), 2207);
    assert_eq!(u32::from(DSPIcon::Tech(1)), 40001);
}

#[test]
fn every_icon_number_leads_back_to_itself() {
    for n in (0u32..70000).chain([u32::MAX - 1, u32::MAX]) {
        if let Ok(icon) = DSPIcon::try_from(n) {
            assert_eq!(u32::from(icon), n);
        }
    }
}

#[test]
fn models_of_buildings() {
    assert_eq!(BPModel::from_building(DSPItem::ConveyorBeltMKI), Ok(BPModel::ConveyorBeltMKI));
    assert_eq!(BPModel::from_building(DSPItem::PlaneSmelter), Ok(BPModel::PlaneSmelter));
    assert_eq!(BPModel::from_building(DSPItem::IronOre), Err(Error::MissingModel));
    assert_eq!(BPModel::from_building(DSPItem::ChemicalPlant), Err(Error::MissingModel));
    assert_eq!(BPModel::ConveyorBeltMKI.to_u16(), 35);
    assert_eq!(BPModel::PlaneSmelter.to_u16(), 194);
    assert_eq!(BPModel::try_from(43), Ok(BPModel::SorterMKIII));
    assert_eq!(BPModel::try_from(44), Err(Error::UnknownIdentifier));
}

#[test]
fn a_building_is_replaced_only_by_one_of_its_class() {
    let valid = BuildingClass::replacement_is_valid;
    assert!(valid(DSPItem::ConveyorBeltMKI, DSPItem::ConveyorBeltMKIII));
    assert!(valid(DSPItem::SorterMKIII, DSPItem::SorterMKI));
    assert!(valid(DSPItem::ArcSmelter, DSPItem::PlaneSmelter));
    assert!(valid(DSPItem::AssemblingMachineMkI, DSPItem::AssemblingMachineMkI));
    assert!(!valid(DSPItem::AssemblingMachineMkI, DSPItem::ConveyorBeltMKI));
    assert!(!valid(DSPItem::ConveyorBeltMKI, DSPItem::SorterMKI));
    assert!(!valid(DSPItem::ArcSmelter, DSPItem::AssemblingMachineMkII));
    // Things without tiers are not replaced at all, not even by themselves.
    assert!(!valid(DSPItem::IronOre, DSPItem::IronOre));
    assert!(!valid(DSPItem::ChemicalPlant, DSPItem::OilRefinery));
    assert!(BuildingClass::class_of(DSPItem::AssemblingMachineMkIII) == BuildingClass::Assembler);
    assert!(BuildingClass::from(DSPItem::PlaneSmelter) == BuildingClass::Smelter);
    assert!(BuildingClass::from(DSPItem::SorterMKII) == BuildingClass::Sorter);
    assert!(BuildingClass::from(DSPItem::ConveyorBeltMKII) == BuildingClass::Belt);
    assert!(BuildingClass::from(DSPItem::Gear) == BuildingClass::Other);
}
