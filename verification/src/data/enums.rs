//! The catalog: the items, recipes, icons and models of the game, each with
//! the number that the game gives it.
//!
//! The catalog is known to be incomplete. A number that it does not hold is
//! not an error in a blueprint: it is a number that this library carries
//! through unchanged.

use crate::error::Error;
use crate::text::same_text;
use vstd::prelude::*;
use vstd::std_specs::convert::FromSpecImpl;

verus! {

/// A number that tells the names of the catalog apart: it is made of the
/// length of a name and of the characters at a quarter, a third and two
/// thirds of it.
#[verifier::opaque]
pub open spec fn mark(s: Seq<char>) -> int {
    let n = s.len() as int;
    n + 64 * (s[n / 4] as int) + 16384 * (s[n / 3] as int) + 4194304 * (s[2 * n / 3] as int)
}

/// The items of the game: wares and buildings.
#[derive(Clone, Copy, Debug, PartialEq, Eq, Hash, Structural)]
pub enum DSPItem {
    IronOre,
    CopperOre,
    Stone,
    Coal,
    SiliconOre,
    TitaniumOre,
    Water,
    CrudeOil,
    Hydrogen,
    Deuterium,
    Antimatter,
    KimberliteOre,
    IronIngot,
    CopperIngot,
    StoneBrick,
    EnergeticGraphite,
    HighPuritySilicon,
    TitaniumIngot,
    SulfuricAcid,
    RefinedOil,
    HydrogenFuelRod,
    DeuteronFuelRod,
    AntimatterFuelRod,
    FractalSilicon,
    Magnet,
    MagneticCoil,
    Glass,
    Diamond,
    CrystalSilicon,
    TitaniumAlloy,
    FireIce,
    Plastic,
    OrganicCrystal,
    Graphene,
    Thruster,
    OpticalGratingCrystal,
    Steel,
    CircuitBoard,
    Prism,
    ElectricMotor,
    MicrocrystallineComponent,
    ProliferatorMkI,
    CasimirCrystal,
    StrangeMatter,
    TitaniumCrystal,
    CarbonNanotube,
    ReinforcedThruster,
    SpiniformStalagmiteCrystal,
    Gear,
    PlasmaExciter,
    PhotonCombiner,
    ElectromagneticTurbine,
    Processor,
    ProliferatorMkII,
    AnnihilationConstraintSphere,
    TitaniumGlass,
    ParticleBroadband,
    LogisticsDrone,
    UnipolarMagnet,
    Foundation,
    CriticalPhoton,
    ParticleContainer,
    SuperMagneticRing,
    GravitonLens,
    ProliferatorMkIII,
    SpaceWarper,
    PlaneFilter,
    QuantumChip,
    LogisticsVessel,
    Log,
    ElectromagneticMatrix,
    EnergyMatrix,
    StructureMatrix,
    InformationMatrix,
    GravityMatrix,
    UniverseMatrix,
    SolarSail,
    FrameMaterial,
    DysonSphereComponent,
    SmallCarrierRocket,
    PlantFuel,
    TeslaTower,
    WirelessPowerTower,
    SatelliteSubstation,
    WindTurbine,
    ThermalPowerStation,
    SolarPanel,
    GeothermalPowerStation,
    MiniFusionPowerStation,
    EnergyExchanger,
    RayReceiver,
    ArtificialStar,
    ConveyorBeltMKI,
    ConveyorBeltMKII,
    ConveyorBeltMKIII,
    Splitter,
    AutomaticPiler,
    TrafficMonitor,
    StorageMKI,
    StorageMKII,
    StorageTank,
    PlanetaryLogisticsStation,
    InterstellarLogisticsStation,
    OrbitalCollector,
    SorterMKI,
    SorterMKII,
    SorterMKIII,
    MiningMachine,
    AdvancedMiningMachine,
    WaterPump,
    OilExtractor,
    OilRefinery,
    MiniatureParticleCollider,
    EMRailEjector,
    VerticalLaunchingSilo,
    AssemblingMachineMkI,
    AssemblingMachineMkII,
    AssemblingMachineMkIII,
    ArcSmelter,
    PlaneSmelter,
    SprayCoater,
    Fractionator,
    ChemicalPlant,
    MatrixLab,
    Accumulator,
    AccumulatorFull,
}

impl DSPItem {
    /// The number that the game gives the item.
    pub open spec fn id(self) -> u16 {
        match self {
            DSPItem::IronOre => 1001,
            DSPItem::CopperOre => 1002,
            DSPItem::Stone => 1005,
            DSPItem::Coal => 1006,
            DSPItem::SiliconOre => 1003,
            DSPItem::TitaniumOre => 1004,
            DSPItem::Water => 1000,
            DSPItem::CrudeOil => 1007,
            DSPItem::Hydrogen => 1120,
            DSPItem::Deuterium => 1121,
            DSPItem::Antimatter => 1122,
            DSPItem::KimberliteOre => 1012,
            DSPItem::IronIngot => 1101,
            DSPItem::CopperIngot => 1104,
            DSPItem::StoneBrick => 1108,
            DSPItem::EnergeticGraphite => 1109,
            DSPItem::HighPuritySilicon => 1105,
            DSPItem::TitaniumIngot => 1106,
            DSPItem::SulfuricAcid => 1116,
            DSPItem::RefinedOil => 1114,
            DSPItem::HydrogenFuelRod => 1801,
            DSPItem::DeuteronFuelRod => 1802,
            DSPItem::AntimatterFuelRod => 1803,
            DSPItem::FractalSilicon => 1013,
            DSPItem::Magnet => 1102,
            DSPItem::MagneticCoil => 1202,
            DSPItem::Glass => 1110,
            DSPItem::Diamond => 1112,
            DSPItem::CrystalSilicon => 1113,
            DSPItem::TitaniumAlloy => 1107,
            DSPItem::FireIce => 1011,
            DSPItem::Plastic => 1115,
            DSPItem::OrganicCrystal => 1117,
            DSPItem::Graphene => 1123,
            DSPItem::Thruster => 1405,
            DSPItem::OpticalGratingCrystal => 1014,
            DSPItem::Steel => 1103,
            DSPItem::CircuitBoard => 1301,
            DSPItem::Prism => 1111,
            DSPItem::ElectricMotor => 1203,
            DSPItem::MicrocrystallineComponent => 1302,
            DSPItem::ProliferatorMkI => 1141,
            DSPItem::CasimirCrystal => 1126,
            DSPItem::StrangeMatter => 1127,
            DSPItem::TitaniumCrystal => 1118,
            DSPItem::CarbonNanotube => 1124,
            DSPItem::ReinforcedThruster => 1406,
            DSPItem::SpiniformStalagmiteCrystal => 1015,
            DSPItem::Gear => 1201,
            DSPItem::PlasmaExciter => 1401,
            DSPItem::PhotonCombiner => 1404,
            DSPItem::ElectromagneticTurbine => 1204,
            DSPItem::Processor => 1303,
            DSPItem::ProliferatorMkII => 1142,
            DSPItem::AnnihilationConstraintSphere => 1403,
            DSPItem::TitaniumGlass => 1119,
            DSPItem::ParticleBroadband => 1402,
            DSPItem::LogisticsDrone => 5001,
            DSPItem::UnipolarMagnet => 1016,
            DSPItem::Foundation => 1131,
            DSPItem::CriticalPhoton => 1208,
            DSPItem::ParticleContainer => 1206,
            DSPItem::SuperMagneticRing => 1205,
            DSPItem::GravitonLens => 1209,
            DSPItem::ProliferatorMkIII => 1143,
            DSPItem::SpaceWarper => 1210,
            DSPItem::PlaneFilter => 1304,
            DSPItem::QuantumChip => 1305,
            DSPItem::LogisticsVessel => 5002,
            DSPItem::Log => 1030,
            DSPItem::ElectromagneticMatrix => 6001,
            DSPItem::EnergyMatrix => 6002,
            DSPItem::StructureMatrix => 6003,
            DSPItem::InformationMatrix => 6004,
            DSPItem::GravityMatrix => 6005,
            DSPItem::UniverseMatrix => 6006,
            DSPItem::SolarSail => 1501,
            DSPItem::FrameMaterial => 1125,
            DSPItem::DysonSphereComponent => 1502,
            DSPItem::SmallCarrierRocket => 1503,
            DSPItem::PlantFuel => 1031,
            DSPItem::TeslaTower => 2201,
            DSPItem::WirelessPowerTower => 2202,
            DSPItem::SatelliteSubstation => 2212,
            DSPItem::WindTurbine => 2203,
            DSPItem::ThermalPowerStation => 2204,
            DSPItem::SolarPanel => 2205,
            DSPItem::GeothermalPowerStation => 2213,
            DSPItem::MiniFusionPowerStation => 2211,
            DSPItem::EnergyExchanger => 2209,
            DSPItem::RayReceiver => 2208,
            DSPItem::ArtificialStar => 2210,
            DSPItem::ConveyorBeltMKI => 2001,
            DSPItem::ConveyorBeltMKII => 2002,
            DSPItem::ConveyorBeltMKIII => 2003,
            DSPItem::Splitter => 2020,
            DSPItem::AutomaticPiler => 2040,
            DSPItem::TrafficMonitor => 2030,
            DSPItem::StorageMKI => 2101,
            DSPItem::StorageMKII => 2102,
            DSPItem::StorageTank => 2106,
            DSPItem::PlanetaryLogisticsStation => 2103,
            DSPItem::InterstellarLogisticsStation => 2104,
            DSPItem::OrbitalCollector => 2105,
            DSPItem::SorterMKI => 2011,
            DSPItem::SorterMKII => 2012,
            DSPItem::SorterMKIII => 2013,
            DSPItem::MiningMachine => 2301,
            DSPItem::AdvancedMiningMachine => 2316,
            DSPItem::WaterPump => 2306,
            DSPItem::OilExtractor => 2307,
            DSPItem::OilRefinery => 2308,
            DSPItem::MiniatureParticleCollider => 2310,
            DSPItem::EMRailEjector => 2311,
            DSPItem::VerticalLaunchingSilo => 2312,
            DSPItem::AssemblingMachineMkI => 2303,
            DSPItem::AssemblingMachineMkII => 2304,
            DSPItem::AssemblingMachineMkIII => 2305,
            DSPItem::ArcSmelter => 2302,
            DSPItem::PlaneSmelter => 2315,
            DSPItem::SprayCoater => 2313,
            DSPItem::Fractionator => 2314,
            DSPItem::ChemicalPlant => 2309,
            DSPItem::MatrixLab => 2901,
            DSPItem::Accumulator => 2206,
            DSPItem::AccumulatorFull => 2207,
        }
    }

    /// The name of the item.
    pub open spec fn name_spec(self) -> Seq<char> {
        match self {
            DSPItem::IronOre => "IronOre"@,
            DSPItem::CopperOre => "CopperOre"@,
            DSPItem::Stone => "Stone"@,
            DSPItem::Coal => "Coal"@,
            DSPItem::SiliconOre => "SiliconOre"@,
            DSPItem::TitaniumOre => "TitaniumOre"@,
            DSPItem::Water => "Water"@,
            DSPItem::CrudeOil => "CrudeOil"@,
            DSPItem::Hydrogen => "Hydrogen"@,
            DSPItem::Deuterium => "Deuterium"@,
            DSPItem::Antimatter => "Antimatter"@,
            DSPItem::KimberliteOre => "KimberliteOre"@,
            DSPItem::IronIngot => "IronIngot"@,
            DSPItem::CopperIngot => "CopperIngot"@,
            DSPItem::StoneBrick => "StoneBrick"@,
            DSPItem::EnergeticGraphite => "EnergeticGraphite"@,
            DSPItem::HighPuritySilicon => "HighPuritySilicon"@,
            DSPItem::TitaniumIngot => "TitaniumIngot"@,
            DSPItem::SulfuricAcid => "SulfuricAcid"@,
            DSPItem::RefinedOil => "RefinedOil"@,
            DSPItem::HydrogenFuelRod => "HydrogenFuelRod"@,
            DSPItem::DeuteronFuelRod => "DeuteronFuelRod"@,
            DSPItem::AntimatterFuelRod => "AntimatterFuelRod"@,
            DSPItem::FractalSilicon => "FractalSilicon"@,
            DSPItem::Magnet => "Magnet"@,
            DSPItem::MagneticCoil => "MagneticCoil"@,
            DSPItem::Glass => "Glass"@,
            DSPItem::Diamond => "Diamond"@,
            DSPItem::CrystalSilicon => "CrystalSilicon"@,
            DSPItem::TitaniumAlloy => "TitaniumAlloy"@,
            DSPItem::FireIce => "FireIce"@,
            DSPItem::Plastic => "Plastic"@,
            DSPItem::OrganicCrystal => "OrganicCrystal"@,
            DSPItem::Graphene => "Graphene"@,
            DSPItem::Thruster => "Thruster"@,
            DSPItem::OpticalGratingCrystal => "OpticalGratingCrystal"@,
            DSPItem::Steel => "Steel"@,
            DSPItem::CircuitBoard => "CircuitBoard"@,
            DSPItem::Prism => "Prism"@,
            DSPItem::ElectricMotor => "ElectricMotor"@,
            DSPItem::MicrocrystallineComponent => "MicrocrystallineComponent"@,
            DSPItem::ProliferatorMkI => "ProliferatorMkI"@,
            DSPItem::CasimirCrystal => "CasimirCrystal"@,
            DSPItem::StrangeMatter => "StrangeMatter"@,
            DSPItem::TitaniumCrystal => "TitaniumCrystal"@,
            DSPItem::CarbonNanotube => "CarbonNanotube"@,
            DSPItem::ReinforcedThruster => "ReinforcedThruster"@,
            DSPItem::SpiniformStalagmiteCrystal => "SpiniformStalagmiteCrystal"@,
            DSPItem::Gear => "Gear"@,
            DSPItem::PlasmaExciter => "PlasmaExciter"@,
            DSPItem::PhotonCombiner => "PhotonCombiner"@,
            DSPItem::ElectromagneticTurbine => "ElectromagneticTurbine"@,
            DSPItem::Processor => "Processor"@,
            DSPItem::ProliferatorMkII => "ProliferatorMkII"@,
            DSPItem::AnnihilationConstraintSphere => "AnnihilationConstraintSphere"@,
            DSPItem::TitaniumGlass => "TitaniumGlass"@,
            DSPItem::ParticleBroadband => "ParticleBroadband"@,
            DSPItem::LogisticsDrone => "LogisticsDrone"@,
            DSPItem::UnipolarMagnet => "UnipolarMagnet"@,
            DSPItem::Foundation => "Foundation"@,
            DSPItem::CriticalPhoton => "CriticalPhoton"@,
            DSPItem::ParticleContainer => "ParticleContainer"@,
            DSPItem::SuperMagneticRing => "SuperMagneticRing"@,
            DSPItem::GravitonLens => "GravitonLens"@,
            DSPItem::ProliferatorMkIII => "ProliferatorMkIII"@,
            DSPItem::SpaceWarper => "SpaceWarper"@,
            DSPItem::PlaneFilter => "PlaneFilter"@,
            DSPItem::QuantumChip => "QuantumChip"@,
            DSPItem::LogisticsVessel => "LogisticsVessel"@,
            DSPItem::Log => "Log"@,
            DSPItem::ElectromagneticMatrix => "ElectromagneticMatrix"@,
            DSPItem::EnergyMatrix => "EnergyMatrix"@,
            DSPItem::StructureMatrix => "StructureMatrix"@,
            DSPItem::InformationMatrix => "InformationMatrix"@,
            DSPItem::GravityMatrix => "GravityMatrix"@,
            DSPItem::UniverseMatrix => "UniverseMatrix"@,
            DSPItem::SolarSail => "SolarSail"@,
            DSPItem::FrameMaterial => "FrameMaterial"@,
            DSPItem::DysonSphereComponent => "DysonSphereComponent"@,
            DSPItem::SmallCarrierRocket => "SmallCarrierRocket"@,
            DSPItem::PlantFuel => "PlantFuel"@,
            DSPItem::TeslaTower => "TeslaTower"@,
            DSPItem::WirelessPowerTower => "WirelessPowerTower"@,
            DSPItem::SatelliteSubstation => "SatelliteSubstation"@,
            DSPItem::WindTurbine => "WindTurbine"@,
            DSPItem::ThermalPowerStation => "ThermalPowerStation"@,
            DSPItem::SolarPanel => "SolarPanel"@,
            DSPItem::GeothermalPowerStation => "GeothermalPowerStation"@,
            DSPItem::MiniFusionPowerStation => "MiniFusionPowerStation"@,
            DSPItem::EnergyExchanger => "EnergyExchanger"@,
            DSPItem::RayReceiver => "RayReceiver"@,
            DSPItem::ArtificialStar => "ArtificialStar"@,
            DSPItem::ConveyorBeltMKI => "ConveyorBeltMKI"@,
            DSPItem::ConveyorBeltMKII => "ConveyorBeltMKII"@,
            DSPItem::ConveyorBeltMKIII => "ConveyorBeltMKIII"@,
            DSPItem::Splitter => "Splitter"@,
            DSPItem::AutomaticPiler => "AutomaticPiler"@,
            DSPItem::TrafficMonitor => "TrafficMonitor"@,
            DSPItem::StorageMKI => "StorageMKI"@,
            DSPItem::StorageMKII => "StorageMKII"@,
            DSPItem::StorageTank => "StorageTank"@,
            DSPItem::PlanetaryLogisticsStation => "PlanetaryLogisticsStation"@,
            DSPItem::InterstellarLogisticsStation => "InterstellarLogisticsStation"@,
            DSPItem::OrbitalCollector => "OrbitalCollector"@,
            DSPItem::SorterMKI => "SorterMKI"@,
            DSPItem::SorterMKII => "SorterMKII"@,
            DSPItem::SorterMKIII => "SorterMKIII"@,
            DSPItem::MiningMachine => "MiningMachine"@,
            DSPItem::AdvancedMiningMachine => "AdvancedMiningMachine"@,
            DSPItem::WaterPump => "WaterPump"@,
            DSPItem::OilExtractor => "OilExtractor"@,
            DSPItem::OilRefinery => "OilRefinery"@,
            DSPItem::MiniatureParticleCollider => "MiniatureParticleCollider"@,
            DSPItem::EMRailEjector => "EMRailEjector"@,
            DSPItem::VerticalLaunchingSilo => "VerticalLaunchingSilo"@,
            DSPItem::AssemblingMachineMkI => "AssemblingMachineMkI"@,
            DSPItem::AssemblingMachineMkII => "AssemblingMachineMkII"@,
            DSPItem::AssemblingMachineMkIII => "AssemblingMachineMkIII"@,
            DSPItem::ArcSmelter => "ArcSmelter"@,
            DSPItem::PlaneSmelter => "PlaneSmelter"@,
            DSPItem::SprayCoater => "SprayCoater"@,
            DSPItem::Fractionator => "Fractionator"@,
            DSPItem::ChemicalPlant => "ChemicalPlant"@,
            DSPItem::MatrixLab => "MatrixLab"@,
            DSPItem::Accumulator => "Accumulator"@,
            DSPItem::AccumulatorFull => "AccumulatorFull"@,
        }
    }

    /// The item with the number `n`, where there is one.
    pub open spec fn of_id(n: u16) -> Option<Self> {
        if exists|x: Self| x.id() == n {
            Some(choose|x: Self| x.id() == n)
        } else {
            None
        }
    }

    /// The item with the name `s`, where there is one.
    pub open spec fn of_name(s: Seq<char>) -> Option<Self> {
        if exists|x: Self| x.name_spec() == s {
            Some(choose|x: Self| x.name_spec() == s)
        } else {
            None
        }
    }

    /// The item with a given name is the only one with that name.
    pub proof fn lemma_of_name(x: Self)
        ensures
            Self::of_name(x.name_spec()) == Some(x),
    {
        let y = choose|y: Self| y.name_spec() == x.name_spec();
        Self::lemma_name_injective(x, y);
    }

    /// No two items share a number.
    pub proof fn lemma_id_injective(a: Self, b: Self)
        requires
            a.id() == b.id(),
        ensures
            a == b,
    {
    }

    /// The item with a given number is the only one with that number.
    pub proof fn lemma_of_id(x: Self)
        ensures
            Self::of_id(x.id()) == Some(x),
    {
        let y = choose|y: Self| y.id() == x.id();
        Self::lemma_id_injective(x, y);
    }

    /// The mark of the name of the item.
    pub closed spec fn name_mark(self) -> int {
        match self {
            DSPItem::IronOre => 333175943,
            DSPItem::CopperOre => 333192201,
            DSPItem::Stone => 463281413,
            DSPItem::Coal => 408673220,
            DSPItem::SiliconOre => 463100682,
            DSPItem::TitaniumOre => 458775819,
            DSPItem::Water => 425220165,
            DSPItem::CrudeOil => 333274440,
            DSPItem::Hydrogen => 433658120,
            DSPItem::Deuterium => 442309961,
            DSPItem::Antimatter => 488267018,
            DSPItem::KimberliteOre => 488200333,
            DSPItem::IronIngot => 433822665,
            DSPItem::CopperIngot => 463215627,
            DSPItem::StoneBrick => 479960010,
            DSPItem::EnergeticGraphite => 408508881,
            DSPItem::HighPuritySilicon => 442323985,
            DSPItem::TitaniumIngot => 307992653,
            DSPItem::SulfuricAcid => 274553228,
            DSPItem::RefinedOil => 421157258,
            DSPItem::HydrogenFuelRod => 425319567,
            DSPItem::DeuteronFuelRod => 425499919,
            DSPItem::AntimatterFuelRod => 492329809,
            DSPItem::FractalSilicon => 454891726,
            DSPItem::Magnet => 425318470,
            DSPItem::MagneticCoil => 282680204,
            DSPItem::Glass => 484121349,
            DSPItem::Diamond => 467163719,
            DSPItem::CrystalSilicon => 454892750,
            DSPItem::TitaniumAlloy => 274438221,
            DSPItem::FireIce => 308058695,
            DSPItem::Plastic => 488135431,
            DSPItem::OrganicCrystal => 509319246,
            DSPItem::Graphene => 425220168,
            DSPItem::Thruster => 488414344,
            DSPItem::OpticalGratingCrystal => 282187861,
            DSPItem::Steel => 425532677,
            DSPItem::CircuitBoard => 467491020,
            DSPItem::Prism => 484220037,
            DSPItem::ElectricMotor => 324868301,
            DSPItem::MicrocrystallineComponent => 282909849,
            DSPItem::ProliferatorMkI => 467245839,
            DSPItem::CasimirCrystal => 509303374,
            DSPItem::StrangeMatter => 408655949,
            DSPItem::TitaniumCrystal => 509237327,
            DSPItem::CarbonNanotube => 467392654,
            DSPItem::ReinforcedThruster => 480024978,
            DSPItem::SpiniformStalagmiteCrystal => 488332250,
            DSPItem::Gear => 408508740,
            DSPItem::PlasmaExciter => 417029325,
            DSPItem::PhotonCombiner => 412867854,
            DSPItem::ElectromagneticTurbine => 417029270,
            DSPItem::Processor => 483974089,
            DSPItem::ProliferatorMkII => 467245648,
            DSPItem::AnnihilationConstraintSphere => 408574044,
            DSPItem::TitaniumGlass => 299604045,
            DSPItem::ParticleBroadband => 408476241,
            DSPItem::LogisticsDrone => 287103566,
            DSPItem::UnipolarMagnet => 408673294,
            DSPItem::Foundation => 488349002,
            DSPItem::CriticalPhoton => 437935374,
            DSPItem::ParticleContainer => 488168017,
            DSPItem::SuperMagneticRing => 441670801,
            DSPItem::GravitonLens => 320494988,
            DSPItem::ProliferatorMkIII => 479828561,
            DSPItem::SpaceWarper => 479778891,
            DSPItem::PlaneFilter => 454793291,
            DSPItem::QuantumChip => 282826827,
            DSPItem::LogisticsVessel => 425531983,
            DSPItem::Log => 433836803,
            DSPItem::ElectromagneticMatrix => 417029269,
            DSPItem::EnergyMatrix => 488234124,
            DSPItem::StructureMatrix => 408755535,
            DSPItem::InformationMatrix => 324754577,
            DSPItem::GravityMatrix => 408575373,
            DSPItem::UniverseMatrix => 408509838,
            DSPItem::SolarSail => 408443657,
            DSPItem::FrameMaterial => 425286477,
            DSPItem::DysonSphereComponent => 459019476,
            DSPItem::SmallCarrierRocket => 345529106,
            DSPItem::PlantFuel => 492542025,
            DSPItem::TeslaTower => 467344586,
            DSPItem::WirelessPowerTower => 480041746,
            DSPItem::SatelliteSubstation => 484072211,
            DSPItem::WindTurbine => 412687243,
            DSPItem::ThermalPowerStation => 349903699,
            DSPItem::SolarPanel => 408443658,
            DSPItem::GeothermalPowerStation => 479942998,
            DSPItem::MiniFusionPowerStation => 479878486,
            DSPItem::EnergyExchanger => 408837263,
            DSPItem::RayReceiver => 441753163,
            DSPItem::ArtificialStar => 454662734,
            DSPItem::ConveyorBeltMKI => 454974863,
            DSPItem::ConveyorBeltMKII => 454973776,
            DSPItem::ConveyorBeltMKIII => 488528209,
            DSPItem::Splitter => 488315656,
            DSPItem::AutomaticPiler => 337337294,
            DSPItem::TrafficMonitor => 463051150,
            DSPItem::StorageMKI => 425499594,
            DSPItem::StorageMKII => 324836299,
            DSPItem::StorageTank => 354196427,
            DSPItem::PlanetaryLogisticsStation => 417224793,
            DSPItem::InterstellarLogisticsStation => 442177884,
            DSPItem::OrbitalCollector => 454581520,
            DSPItem::SorterMKI => 324869257,
            DSPItem::SorterMKII => 324869258,
            DSPItem::SorterMKIII => 316480651,
            DSPItem::MiningMachine => 417045069,
            DSPItem::AdvancedMiningMachine => 324606165,
            DSPItem::WaterPump => 492395785,
            DSPItem::OilExtractor => 417206604,
            DSPItem::OilRefinery => 462723851,
            DSPItem::MiniatureParticleCollider => 425287001,
            DSPItem::EMRailEjector => 425351245,
            DSPItem::VerticalLaunchingSilo => 442177749,
            DSPItem::AssemblingMachineMkI => 437983380,
            DSPItem::AssemblingMachineMkII => 442128533,
            DSPItem::AssemblingMachineMkIII => 442128534,
            DSPItem::ArcSmelter => 454351050,
            DSPItem::PlaneSmelter => 454646668,
            DSPItem::SprayCoater => 408444043,
            DSPItem::Fractionator => 408754380,
            DSPItem::ChemicalPlant => 337271629,
            DSPItem::MatrixLab => 320642313,
            DSPItem::Accumulator => 408770763,
            DSPItem::AccumulatorFull => 480075087,
        }
    }

    /// The mark of the name of each of the items is what its text gives.
    proof fn lemma_name_mark(self)
        ensures
            mark(self.name_spec()) == self.name_mark(),
    {
        reveal(mark);
        reveal_strlit("IronOre");
        reveal_strlit("CopperOre");
        reveal_strlit("Stone");
        reveal_strlit("Coal");
        reveal_strlit("SiliconOre");
        reveal_strlit("TitaniumOre");
        reveal_strlit("Water");
        reveal_strlit("CrudeOil");
        reveal_strlit("Hydrogen");
        reveal_strlit("Deuterium");
        reveal_strlit("Antimatter");
        reveal_strlit("KimberliteOre");
        reveal_strlit("IronIngot");
        reveal_strlit("CopperIngot");
        reveal_strlit("StoneBrick");
        reveal_strlit("EnergeticGraphite");
        reveal_strlit("HighPuritySilicon");
        reveal_strlit("TitaniumIngot");
        reveal_strlit("SulfuricAcid");
        reveal_strlit("RefinedOil");
        reveal_strlit("HydrogenFuelRod");
        reveal_strlit("DeuteronFuelRod");
        reveal_strlit("AntimatterFuelRod");
        reveal_strlit("FractalSilicon");
        reveal_strlit("Magnet");
        reveal_strlit("MagneticCoil");
        reveal_strlit("Glass");
        reveal_strlit("Diamond");
        reveal_strlit("CrystalSilicon");
        reveal_strlit("TitaniumAlloy");
        reveal_strlit("FireIce");
        reveal_strlit("Plastic");
        reveal_strlit("OrganicCrystal");
        reveal_strlit("Graphene");
        reveal_strlit("Thruster");
        reveal_strlit("OpticalGratingCrystal");
        reveal_strlit("Steel");
        reveal_strlit("CircuitBoard");
        reveal_strlit("Prism");
        reveal_strlit("ElectricMotor");
        reveal_strlit("MicrocrystallineComponent");
        reveal_strlit("ProliferatorMkI");
        reveal_strlit("CasimirCrystal");
        reveal_strlit("StrangeMatter");
        reveal_strlit("TitaniumCrystal");
        reveal_strlit("CarbonNanotube");
        reveal_strlit("ReinforcedThruster");
        reveal_strlit("SpiniformStalagmiteCrystal");
        reveal_strlit("Gear");
        reveal_strlit("PlasmaExciter");
        reveal_strlit("PhotonCombiner");
        reveal_strlit("ElectromagneticTurbine");
        reveal_strlit("Processor");
        reveal_strlit("ProliferatorMkII");
        reveal_strlit("AnnihilationConstraintSphere");
        reveal_strlit("TitaniumGlass");
        reveal_strlit("ParticleBroadband");
        reveal_strlit("LogisticsDrone");
        reveal_strlit("UnipolarMagnet");
        reveal_strlit("Foundation");
        reveal_strlit("CriticalPhoton");
        reveal_strlit("ParticleContainer");
        reveal_strlit("SuperMagneticRing");
        reveal_strlit("GravitonLens");
        reveal_strlit("ProliferatorMkIII");
        reveal_strlit("SpaceWarper");
        reveal_strlit("PlaneFilter");
        reveal_strlit("QuantumChip");
        reveal_strlit("LogisticsVessel");
        reveal_strlit("Log");
        reveal_strlit("ElectromagneticMatrix");
        reveal_strlit("EnergyMatrix");
        reveal_strlit("StructureMatrix");
        reveal_strlit("InformationMatrix");
        reveal_strlit("GravityMatrix");
        reveal_strlit("UniverseMatrix");
        reveal_strlit("SolarSail");
        reveal_strlit("FrameMaterial");
        reveal_strlit("DysonSphereComponent");
        reveal_strlit("SmallCarrierRocket");
        reveal_strlit("PlantFuel");
        reveal_strlit("TeslaTower");
        reveal_strlit("WirelessPowerTower");
        reveal_strlit("SatelliteSubstation");
        reveal_strlit("WindTurbine");
        reveal_strlit("ThermalPowerStation");
        reveal_strlit("SolarPanel");
        reveal_strlit("GeothermalPowerStation");
        reveal_strlit("MiniFusionPowerStation");
        reveal_strlit("EnergyExchanger");
        reveal_strlit("RayReceiver");
        reveal_strlit("ArtificialStar");
        reveal_strlit("ConveyorBeltMKI");
        reveal_strlit("ConveyorBeltMKII");
        reveal_strlit("ConveyorBeltMKIII");
        reveal_strlit("Splitter");
        reveal_strlit("AutomaticPiler");
        reveal_strlit("TrafficMonitor");
        reveal_strlit("StorageMKI");
        reveal_strlit("StorageMKII");
        reveal_strlit("StorageTank");
        reveal_strlit("PlanetaryLogisticsStation");
        reveal_strlit("InterstellarLogisticsStation");
        reveal_strlit("OrbitalCollector");
        reveal_strlit("SorterMKI");
        reveal_strlit("SorterMKII");
        reveal_strlit("SorterMKIII");
        reveal_strlit("MiningMachine");
        reveal_strlit("AdvancedMiningMachine");
        reveal_strlit("WaterPump");
        reveal_strlit("OilExtractor");
        reveal_strlit("OilRefinery");
        reveal_strlit("MiniatureParticleCollider");
        reveal_strlit("EMRailEjector");
        reveal_strlit("VerticalLaunchingSilo");
        reveal_strlit("AssemblingMachineMkI");
        reveal_strlit("AssemblingMachineMkII");
        reveal_strlit("AssemblingMachineMkIII");
        reveal_strlit("ArcSmelter");
        reveal_strlit("PlaneSmelter");
        reveal_strlit("SprayCoater");
        reveal_strlit("Fractionator");
        reveal_strlit("ChemicalPlant");
        reveal_strlit("MatrixLab");
        reveal_strlit("Accumulator");
        reveal_strlit("AccumulatorFull");
    }

    /// No two items share a name.
    pub proof fn lemma_name_injective(a: Self, b: Self)
        requires
            a.name_spec() == b.name_spec(),
        ensures
            a == b,
    {
        a.lemma_name_mark();
        b.lemma_name_mark();
        assert(a.name_mark() == b.name_mark());
        Self::lemma_marks_differ(a, b);
    }

    /// No two items have names of the same mark.
    proof fn lemma_marks_differ(a: Self, b: Self)
        requires
            a.name_mark() == b.name_mark(),
        ensures
            a == b,
    {
    }

    /// The number of the item.
    pub fn to_u16(self) -> (r: u16)
        ensures
            r == self.id(),
    {
        match self {
            DSPItem::IronOre => 1001,
            DSPItem::CopperOre => 1002,
            DSPItem::Stone => 1005,
            DSPItem::Coal => 1006,
            DSPItem::SiliconOre => 1003,
            DSPItem::TitaniumOre => 1004,
            DSPItem::Water => 1000,
            DSPItem::CrudeOil => 1007,
            DSPItem::Hydrogen => 1120,
            DSPItem::Deuterium => 1121,
            DSPItem::Antimatter => 1122,
            DSPItem::KimberliteOre => 1012,
            DSPItem::IronIngot => 1101,
            DSPItem::CopperIngot => 1104,
            DSPItem::StoneBrick => 1108,
            DSPItem::EnergeticGraphite => 1109,
            DSPItem::HighPuritySilicon => 1105,
            DSPItem::TitaniumIngot => 1106,
            DSPItem::SulfuricAcid => 1116,
            DSPItem::RefinedOil => 1114,
            DSPItem::HydrogenFuelRod => 1801,
            DSPItem::DeuteronFuelRod => 1802,
            DSPItem::AntimatterFuelRod => 1803,
            DSPItem::FractalSilicon => 1013,
            DSPItem::Magnet => 1102,
            DSPItem::MagneticCoil => 1202,
            DSPItem::Glass => 1110,
            DSPItem::Diamond => 1112,
            DSPItem::CrystalSilicon => 1113,
            DSPItem::TitaniumAlloy => 1107,
            DSPItem::FireIce => 1011,
            DSPItem::Plastic => 1115,
            DSPItem::OrganicCrystal => 1117,
            DSPItem::Graphene => 1123,
            DSPItem::Thruster => 1405,
            DSPItem::OpticalGratingCrystal => 1014,
            DSPItem::Steel => 1103,
            DSPItem::CircuitBoard => 1301,
            DSPItem::Prism => 1111,
            DSPItem::ElectricMotor => 1203,
            DSPItem::MicrocrystallineComponent => 1302,
            DSPItem::ProliferatorMkI => 1141,
            DSPItem::CasimirCrystal => 1126,
            DSPItem::StrangeMatter => 1127,
            DSPItem::TitaniumCrystal => 1118,
            DSPItem::CarbonNanotube => 1124,
            DSPItem::ReinforcedThruster => 1406,
            DSPItem::SpiniformStalagmiteCrystal => 1015,
            DSPItem::Gear => 1201,
            DSPItem::PlasmaExciter => 1401,
            DSPItem::PhotonCombiner => 1404,
            DSPItem::ElectromagneticTurbine => 1204,
            DSPItem::Processor => 1303,
            DSPItem::ProliferatorMkII => 1142,
            DSPItem::AnnihilationConstraintSphere => 1403,
            DSPItem::TitaniumGlass => 1119,
            DSPItem::ParticleBroadband => 1402,
            DSPItem::LogisticsDrone => 5001,
            DSPItem::UnipolarMagnet => 1016,
            DSPItem::Foundation => 1131,
            DSPItem::CriticalPhoton => 1208,
            DSPItem::ParticleContainer => 1206,
            DSPItem::SuperMagneticRing => 1205,
            DSPItem::GravitonLens => 1209,
            DSPItem::ProliferatorMkIII => 1143,
            DSPItem::SpaceWarper => 1210,
            DSPItem::PlaneFilter => 1304,
            DSPItem::QuantumChip => 1305,
            DSPItem::LogisticsVessel => 5002,
            DSPItem::Log => 1030,
            DSPItem::ElectromagneticMatrix => 6001,
            DSPItem::EnergyMatrix => 6002,
            DSPItem::StructureMatrix => 6003,
            DSPItem::InformationMatrix => 6004,
            DSPItem::GravityMatrix => 6005,
            DSPItem::UniverseMatrix => 6006,
            DSPItem::SolarSail => 1501,
            DSPItem::FrameMaterial => 1125,
            DSPItem::DysonSphereComponent => 1502,
            DSPItem::SmallCarrierRocket => 1503,
            DSPItem::PlantFuel => 1031,
            DSPItem::TeslaTower => 2201,
            DSPItem::WirelessPowerTower => 2202,
            DSPItem::SatelliteSubstation => 2212,
            DSPItem::WindTurbine => 2203,
            DSPItem::ThermalPowerStation => 2204,
            DSPItem::SolarPanel => 2205,
            DSPItem::GeothermalPowerStation => 2213,
            DSPItem::MiniFusionPowerStation => 2211,
            DSPItem::EnergyExchanger => 2209,
            DSPItem::RayReceiver => 2208,
            DSPItem::ArtificialStar => 2210,
            DSPItem::ConveyorBeltMKI => 2001,
            DSPItem::ConveyorBeltMKII => 2002,
            DSPItem::ConveyorBeltMKIII => 2003,
            DSPItem::Splitter => 2020,
            DSPItem::AutomaticPiler => 2040,
            DSPItem::TrafficMonitor => 2030,
            DSPItem::StorageMKI => 2101,
            DSPItem::StorageMKII => 2102,
            DSPItem::StorageTank => 2106,
            DSPItem::PlanetaryLogisticsStation => 2103,
            DSPItem::InterstellarLogisticsStation => 2104,
            DSPItem::OrbitalCollector => 2105,
            DSPItem::SorterMKI => 2011,
            DSPItem::SorterMKII => 2012,
            DSPItem::SorterMKIII => 2013,
            DSPItem::MiningMachine => 2301,
            DSPItem::AdvancedMiningMachine => 2316,
            DSPItem::WaterPump => 2306,
            DSPItem::OilExtractor => 2307,
            DSPItem::OilRefinery => 2308,
            DSPItem::MiniatureParticleCollider => 2310,
            DSPItem::EMRailEjector => 2311,
            DSPItem::VerticalLaunchingSilo => 2312,
            DSPItem::AssemblingMachineMkI => 2303,
            DSPItem::AssemblingMachineMkII => 2304,
            DSPItem::AssemblingMachineMkIII => 2305,
            DSPItem::ArcSmelter => 2302,
            DSPItem::PlaneSmelter => 2315,
            DSPItem::SprayCoater => 2313,
            DSPItem::Fractionator => 2314,
            DSPItem::ChemicalPlant => 2309,
            DSPItem::MatrixLab => 2901,
            DSPItem::Accumulator => 2206,
            DSPItem::AccumulatorFull => 2207,
        }
    }

    /// The item with the number `n`. Fails where the catalog holds none.
    pub fn try_from(n: u16) -> (r: Result<Self, Error>)
        ensures
            match r {
                Ok(x) => Self::of_id(n) == Some(x) && x.id() == n,
                Err(e) => Self::of_id(n) is None && e == Error::UnknownIdentifier,
            },
    {
        let found = match n {
            1001 => Some(DSPItem::IronOre),
            1002 => Some(DSPItem::CopperOre),
            1005 => Some(DSPItem::Stone),
            1006 => Some(DSPItem::Coal),
            1003 => Some(DSPItem::SiliconOre),
            1004 => Some(DSPItem::TitaniumOre),
            1000 => Some(DSPItem::Water),
            1007 => Some(DSPItem::CrudeOil),
            1120 => Some(DSPItem::Hydrogen),
            1121 => Some(DSPItem::Deuterium),
            1122 => Some(DSPItem::Antimatter),
            1012 => Some(DSPItem::KimberliteOre),
            1101 => Some(DSPItem::IronIngot),
            1104 => Some(DSPItem::CopperIngot),
            1108 => Some(DSPItem::StoneBrick),
            1109 => Some(DSPItem::EnergeticGraphite),
            1105 => Some(DSPItem::HighPuritySilicon),
            1106 => Some(DSPItem::TitaniumIngot),
            1116 => Some(DSPItem::SulfuricAcid),
            1114 => Some(DSPItem::RefinedOil),
            1801 => Some(DSPItem::HydrogenFuelRod),
            1802 => Some(DSPItem::DeuteronFuelRod),
            1803 => Some(DSPItem::AntimatterFuelRod),
            1013 => Some(DSPItem::FractalSilicon),
            1102 => Some(DSPItem::Magnet),
            1202 => Some(DSPItem::MagneticCoil),
            1110 => Some(DSPItem::Glass),
            1112 => Some(DSPItem::Diamond),
            1113 => Some(DSPItem::CrystalSilicon),
            1107 => Some(DSPItem::TitaniumAlloy),
            1011 => Some(DSPItem::FireIce),
            1115 => Some(DSPItem::Plastic),
            1117 => Some(DSPItem::OrganicCrystal),
            1123 => Some(DSPItem::Graphene),
            1405 => Some(DSPItem::Thruster),
            1014 => Some(DSPItem::OpticalGratingCrystal),
            1103 => Some(DSPItem::Steel),
            1301 => Some(DSPItem::CircuitBoard),
            1111 => Some(DSPItem::Prism),
            1203 => Some(DSPItem::ElectricMotor),
            1302 => Some(DSPItem::MicrocrystallineComponent),
            1141 => Some(DSPItem::ProliferatorMkI),
            1126 => Some(DSPItem::CasimirCrystal),
            1127 => Some(DSPItem::StrangeMatter),
            1118 => Some(DSPItem::TitaniumCrystal),
            1124 => Some(DSPItem::CarbonNanotube),
            1406 => Some(DSPItem::ReinforcedThruster),
            1015 => Some(DSPItem::SpiniformStalagmiteCrystal),
            1201 => Some(DSPItem::Gear),
            1401 => Some(DSPItem::PlasmaExciter),
            1404 => Some(DSPItem::PhotonCombiner),
            1204 => Some(DSPItem::ElectromagneticTurbine),
            1303 => Some(DSPItem::Processor),
            1142 => Some(DSPItem::ProliferatorMkII),
            1403 => Some(DSPItem::AnnihilationConstraintSphere),
            1119 => Some(DSPItem::TitaniumGlass),
            1402 => Some(DSPItem::ParticleBroadband),
            5001 => Some(DSPItem::LogisticsDrone),
            1016 => Some(DSPItem::UnipolarMagnet),
            1131 => Some(DSPItem::Foundation),
            1208 => Some(DSPItem::CriticalPhoton),
            1206 => Some(DSPItem::ParticleContainer),
            1205 => Some(DSPItem::SuperMagneticRing),
            1209 => Some(DSPItem::GravitonLens),
            1143 => Some(DSPItem::ProliferatorMkIII),
            1210 => Some(DSPItem::SpaceWarper),
            1304 => Some(DSPItem::PlaneFilter),
            1305 => Some(DSPItem::QuantumChip),
            5002 => Some(DSPItem::LogisticsVessel),
            1030 => Some(DSPItem::Log),
            6001 => Some(DSPItem::ElectromagneticMatrix),
            6002 => Some(DSPItem::EnergyMatrix),
            6003 => Some(DSPItem::StructureMatrix),
            6004 => Some(DSPItem::InformationMatrix),
            6005 => Some(DSPItem::GravityMatrix),
            6006 => Some(DSPItem::UniverseMatrix),
            1501 => Some(DSPItem::SolarSail),
            1125 => Some(DSPItem::FrameMaterial),
            1502 => Some(DSPItem::DysonSphereComponent),
            1503 => Some(DSPItem::SmallCarrierRocket),
            1031 => Some(DSPItem::PlantFuel),
            2201 => Some(DSPItem::TeslaTower),
            2202 => Some(DSPItem::WirelessPowerTower),
            2212 => Some(DSPItem::SatelliteSubstation),
            2203 => Some(DSPItem::WindTurbine),
            2204 => Some(DSPItem::ThermalPowerStation),
            2205 => Some(DSPItem::SolarPanel),
            2213 => Some(DSPItem::GeothermalPowerStation),
            2211 => Some(DSPItem::MiniFusionPowerStation),
            2209 => Some(DSPItem::EnergyExchanger),
            2208 => Some(DSPItem::RayReceiver),
            2210 => Some(DSPItem::ArtificialStar),
            2001 => Some(DSPItem::ConveyorBeltMKI),
            2002 => Some(DSPItem::ConveyorBeltMKII),
            2003 => Some(DSPItem::ConveyorBeltMKIII),
            2020 => Some(DSPItem::Splitter),
            2040 => Some(DSPItem::AutomaticPiler),
            2030 => Some(DSPItem::TrafficMonitor),
            2101 => Some(DSPItem::StorageMKI),
            2102 => Some(DSPItem::StorageMKII),
            2106 => Some(DSPItem::StorageTank),
            2103 => Some(DSPItem::PlanetaryLogisticsStation),
            2104 => Some(DSPItem::InterstellarLogisticsStation),
            2105 => Some(DSPItem::OrbitalCollector),
            2011 => Some(DSPItem::SorterMKI),
            2012 => Some(DSPItem::SorterMKII),
            2013 => Some(DSPItem::SorterMKIII),
            2301 => Some(DSPItem::MiningMachine),
            2316 => Some(DSPItem::AdvancedMiningMachine),
            2306 => Some(DSPItem::WaterPump),
            2307 => Some(DSPItem::OilExtractor),
            2308 => Some(DSPItem::OilRefinery),
            2310 => Some(DSPItem::MiniatureParticleCollider),
            2311 => Some(DSPItem::EMRailEjector),
            2312 => Some(DSPItem::VerticalLaunchingSilo),
            2303 => Some(DSPItem::AssemblingMachineMkI),
            2304 => Some(DSPItem::AssemblingMachineMkII),
            2305 => Some(DSPItem::AssemblingMachineMkIII),
            2302 => Some(DSPItem::ArcSmelter),
            2315 => Some(DSPItem::PlaneSmelter),
            2313 => Some(DSPItem::SprayCoater),
            2314 => Some(DSPItem::Fractionator),
            2309 => Some(DSPItem::ChemicalPlant),
            2901 => Some(DSPItem::MatrixLab),
            2206 => Some(DSPItem::Accumulator),
            2207 => Some(DSPItem::AccumulatorFull),
            _ => None,
        };
        match found {
            Some(x) => {
                proof {
                    Self::lemma_of_id(x);
                }
                Ok(x)
            },
            None => {
                assert forall|x: Self| x.id() != n by {}
                Err(Error::UnknownIdentifier)
            },
        }
    }

    /// The name of the item.
    pub fn name(self) -> (r: &'static str)
        ensures
            r@ == self.name_spec(),
    {
        match self {
            DSPItem::IronOre => "IronOre",
            DSPItem::CopperOre => "CopperOre",
            DSPItem::Stone => "Stone",
            DSPItem::Coal => "Coal",
            DSPItem::SiliconOre => "SiliconOre",
            DSPItem::TitaniumOre => "TitaniumOre",
            DSPItem::Water => "Water",
            DSPItem::CrudeOil => "CrudeOil",
            DSPItem::Hydrogen => "Hydrogen",
            DSPItem::Deuterium => "Deuterium",
            DSPItem::Antimatter => "Antimatter",
            DSPItem::KimberliteOre => "KimberliteOre",
            DSPItem::IronIngot => "IronIngot",
            DSPItem::CopperIngot => "CopperIngot",
            DSPItem::StoneBrick => "StoneBrick",
            DSPItem::EnergeticGraphite => "EnergeticGraphite",
            DSPItem::HighPuritySilicon => "HighPuritySilicon",
            DSPItem::TitaniumIngot => "TitaniumIngot",
            DSPItem::SulfuricAcid => "SulfuricAcid",
            DSPItem::RefinedOil => "RefinedOil",
            DSPItem::HydrogenFuelRod => "HydrogenFuelRod",
            DSPItem::DeuteronFuelRod => "DeuteronFuelRod",
            DSPItem::AntimatterFuelRod => "AntimatterFuelRod",
            DSPItem::FractalSilicon => "FractalSilicon",
            DSPItem::Magnet => "Magnet",
            DSPItem::MagneticCoil => "MagneticCoil",
            DSPItem::Glass => "Glass",
            DSPItem::Diamond => "Diamond",
            DSPItem::CrystalSilicon => "CrystalSilicon",
            DSPItem::TitaniumAlloy => "TitaniumAlloy",
            DSPItem::FireIce => "FireIce",
            DSPItem::Plastic => "Plastic",
            DSPItem::OrganicCrystal => "OrganicCrystal",
            DSPItem::Graphene => "Graphene",
            DSPItem::Thruster => "Thruster",
            DSPItem::OpticalGratingCrystal => "OpticalGratingCrystal",
            DSPItem::Steel => "Steel",
            DSPItem::CircuitBoard => "CircuitBoard",
            DSPItem::Prism => "Prism",
            DSPItem::ElectricMotor => "ElectricMotor",
            DSPItem::MicrocrystallineComponent => "MicrocrystallineComponent",
            DSPItem::ProliferatorMkI => "ProliferatorMkI",
            DSPItem::CasimirCrystal => "CasimirCrystal",
            DSPItem::StrangeMatter => "StrangeMatter",
            DSPItem::TitaniumCrystal => "TitaniumCrystal",
            DSPItem::CarbonNanotube => "CarbonNanotube",
            DSPItem::ReinforcedThruster => "ReinforcedThruster",
            DSPItem::SpiniformStalagmiteCrystal => "SpiniformStalagmiteCrystal",
            DSPItem::Gear => "Gear",
            DSPItem::PlasmaExciter => "PlasmaExciter",
            DSPItem::PhotonCombiner => "PhotonCombiner",
            DSPItem::ElectromagneticTurbine => "ElectromagneticTurbine",
            DSPItem::Processor => "Processor",
            DSPItem::ProliferatorMkII => "ProliferatorMkII",
            DSPItem::AnnihilationConstraintSphere => "AnnihilationConstraintSphere",
            DSPItem::TitaniumGlass => "TitaniumGlass",
            DSPItem::ParticleBroadband => "ParticleBroadband",
            DSPItem::LogisticsDrone => "LogisticsDrone",
            DSPItem::UnipolarMagnet => "UnipolarMagnet",
            DSPItem::Foundation => "Foundation",
            DSPItem::CriticalPhoton => "CriticalPhoton",
            DSPItem::ParticleContainer => "ParticleContainer",
            DSPItem::SuperMagneticRing => "SuperMagneticRing",
            DSPItem::GravitonLens => "GravitonLens",
            DSPItem::ProliferatorMkIII => "ProliferatorMkIII",
            DSPItem::SpaceWarper => "SpaceWarper",
            DSPItem::PlaneFilter => "PlaneFilter",
            DSPItem::QuantumChip => "QuantumChip",
            DSPItem::LogisticsVessel => "LogisticsVessel",
            DSPItem::Log => "Log",
            DSPItem::ElectromagneticMatrix => "ElectromagneticMatrix",
            DSPItem::EnergyMatrix => "EnergyMatrix",
            DSPItem::StructureMatrix => "StructureMatrix",
            DSPItem::InformationMatrix => "InformationMatrix",
            DSPItem::GravityMatrix => "GravityMatrix",
            DSPItem::UniverseMatrix => "UniverseMatrix",
            DSPItem::SolarSail => "SolarSail",
            DSPItem::FrameMaterial => "FrameMaterial",
            DSPItem::DysonSphereComponent => "DysonSphereComponent",
            DSPItem::SmallCarrierRocket => "SmallCarrierRocket",
            DSPItem::PlantFuel => "PlantFuel",
            DSPItem::TeslaTower => "TeslaTower",
            DSPItem::WirelessPowerTower => "WirelessPowerTower",
            DSPItem::SatelliteSubstation => "SatelliteSubstation",
            DSPItem::WindTurbine => "WindTurbine",
            DSPItem::ThermalPowerStation => "ThermalPowerStation",
            DSPItem::SolarPanel => "SolarPanel",
            DSPItem::GeothermalPowerStation => "GeothermalPowerStation",
            DSPItem::MiniFusionPowerStation => "MiniFusionPowerStation",
            DSPItem::EnergyExchanger => "EnergyExchanger",
            DSPItem::RayReceiver => "RayReceiver",
            DSPItem::ArtificialStar => "ArtificialStar",
            DSPItem::ConveyorBeltMKI => "ConveyorBeltMKI",
            DSPItem::ConveyorBeltMKII => "ConveyorBeltMKII",
            DSPItem::ConveyorBeltMKIII => "ConveyorBeltMKIII",
            DSPItem::Splitter => "Splitter",
            DSPItem::AutomaticPiler => "AutomaticPiler",
            DSPItem::TrafficMonitor => "TrafficMonitor",
            DSPItem::StorageMKI => "StorageMKI",
            DSPItem::StorageMKII => "StorageMKII",
            DSPItem::StorageTank => "StorageTank",
            DSPItem::PlanetaryLogisticsStation => "PlanetaryLogisticsStation",
            DSPItem::InterstellarLogisticsStation => "InterstellarLogisticsStation",
            DSPItem::OrbitalCollector => "OrbitalCollector",
            DSPItem::SorterMKI => "SorterMKI",
            DSPItem::SorterMKII => "SorterMKII",
            DSPItem::SorterMKIII => "SorterMKIII",
            DSPItem::MiningMachine => "MiningMachine",
            DSPItem::AdvancedMiningMachine => "AdvancedMiningMachine",
            DSPItem::WaterPump => "WaterPump",
            DSPItem::OilExtractor => "OilExtractor",
            DSPItem::OilRefinery => "OilRefinery",
            DSPItem::MiniatureParticleCollider => "MiniatureParticleCollider",
            DSPItem::EMRailEjector => "EMRailEjector",
            DSPItem::VerticalLaunchingSilo => "VerticalLaunchingSilo",
            DSPItem::AssemblingMachineMkI => "AssemblingMachineMkI",
            DSPItem::AssemblingMachineMkII => "AssemblingMachineMkII",
            DSPItem::AssemblingMachineMkIII => "AssemblingMachineMkIII",
            DSPItem::ArcSmelter => "ArcSmelter",
            DSPItem::PlaneSmelter => "PlaneSmelter",
            DSPItem::SprayCoater => "SprayCoater",
            DSPItem::Fractionator => "Fractionator",
            DSPItem::ChemicalPlant => "ChemicalPlant",
            DSPItem::MatrixLab => "MatrixLab",
            DSPItem::Accumulator => "Accumulator",
            DSPItem::AccumulatorFull => "AccumulatorFull",
        }
    }

    /// The item with the name `s`, where the catalog holds one.
    pub fn from_name(s: &str) -> (r: Option<Self>)
        ensures
            r == Self::of_name(s@),
            match r {
                Some(x) => x.name_spec() == s@,
                None => forall|x: Self| x.name_spec() != s@,
            },
    {
        let r = Self::find_name(s);
        proof {
            if let Some(x) = r {
                Self::lemma_of_name(x);
            }
        }
        r
    }

    /// Looks a name up in the catalog.
    fn find_name(s: &str) -> (r: Option<Self>)
        ensures
            match r {
                Some(x) => x.name_spec() == s@,
                None => forall|x: Self| x.name_spec() != s@,
            },
    {
        if same_text(s, "IronOre") {
            Some(DSPItem::IronOre)
        } else if same_text(s, "CopperOre") {
            Some(DSPItem::CopperOre)
        } else if same_text(s, "Stone") {
            Some(DSPItem::Stone)
        } else if same_text(s, "Coal") {
            Some(DSPItem::Coal)
        } else if same_text(s, "SiliconOre") {
            Some(DSPItem::SiliconOre)
        } else if same_text(s, "TitaniumOre") {
            Some(DSPItem::TitaniumOre)
        } else if same_text(s, "Water") {
            Some(DSPItem::Water)
        } else if same_text(s, "CrudeOil") {
            Some(DSPItem::CrudeOil)
        } else if same_text(s, "Hydrogen") {
            Some(DSPItem::Hydrogen)
        } else if same_text(s, "Deuterium") {
            Some(DSPItem::Deuterium)
        } else if same_text(s, "Antimatter") {
            Some(DSPItem::Antimatter)
        } else if same_text(s, "KimberliteOre") {
            Some(DSPItem::KimberliteOre)
        } else if same_text(s, "IronIngot") {
            Some(DSPItem::IronIngot)
        } else if same_text(s, "CopperIngot") {
            Some(DSPItem::CopperIngot)
        } else if same_text(s, "StoneBrick") {
            Some(DSPItem::StoneBrick)
        } else if same_text(s, "EnergeticGraphite") {
            Some(DSPItem::EnergeticGraphite)
        } else if same_text(s, "HighPuritySilicon") {
            Some(DSPItem::HighPuritySilicon)
        } else if same_text(s, "TitaniumIngot") {
            Some(DSPItem::TitaniumIngot)
        } else if same_text(s, "SulfuricAcid") {
            Some(DSPItem::SulfuricAcid)
        } else if same_text(s, "RefinedOil") {
            Some(DSPItem::RefinedOil)
        } else if same_text(s, "HydrogenFuelRod") {
            Some(DSPItem::HydrogenFuelRod)
        } else if same_text(s, "DeuteronFuelRod") {
            Some(DSPItem::DeuteronFuelRod)
        } else if same_text(s, "AntimatterFuelRod") {
            Some(DSPItem::AntimatterFuelRod)
        } else if same_text(s, "FractalSilicon") {
            Some(DSPItem::FractalSilicon)
        } else if same_text(s, "Magnet") {
            Some(DSPItem::Magnet)
        } else if same_text(s, "MagneticCoil") {
            Some(DSPItem::MagneticCoil)
        } else if same_text(s, "Glass") {
            Some(DSPItem::Glass)
        } else if same_text(s, "Diamond") {
            Some(DSPItem::Diamond)
        } else if same_text(s, "CrystalSilicon") {
            Some(DSPItem::CrystalSilicon)
        } else if same_text(s, "TitaniumAlloy") {
            Some(DSPItem::TitaniumAlloy)
        } else if same_text(s, "FireIce") {
            Some(DSPItem::FireIce)
        } else if same_text(s, "Plastic") {
            Some(DSPItem::Plastic)
        } else if same_text(s, "OrganicCrystal") {
            Some(DSPItem::OrganicCrystal)
        } else if same_text(s, "Graphene") {
            Some(DSPItem::Graphene)
        } else if same_text(s, "Thruster") {
            Some(DSPItem::Thruster)
        } else if same_text(s, "OpticalGratingCrystal") {
            Some(DSPItem::OpticalGratingCrystal)
        } else if same_text(s, "Steel") {
            Some(DSPItem::Steel)
        } else if same_text(s, "CircuitBoard") {
            Some(DSPItem::CircuitBoard)
        } else if same_text(s, "Prism") {
            Some(DSPItem::Prism)
        } else if same_text(s, "ElectricMotor") {
            Some(DSPItem::ElectricMotor)
        } else if same_text(s, "MicrocrystallineComponent") {
            Some(DSPItem::MicrocrystallineComponent)
        } else if same_text(s, "ProliferatorMkI") {
            Some(DSPItem::ProliferatorMkI)
        } else if same_text(s, "CasimirCrystal") {
            Some(DSPItem::CasimirCrystal)
        } else if same_text(s, "StrangeMatter") {
            Some(DSPItem::StrangeMatter)
        } else if same_text(s, "TitaniumCrystal") {
            Some(DSPItem::TitaniumCrystal)
        } else if same_text(s, "CarbonNanotube") {
            Some(DSPItem::CarbonNanotube)
        } else if same_text(s, "ReinforcedThruster") {
            Some(DSPItem::ReinforcedThruster)
        } else if same_text(s, "SpiniformStalagmiteCrystal") {
            Some(DSPItem::SpiniformStalagmiteCrystal)
        } else if same_text(s, "Gear") {
            Some(DSPItem::Gear)
        } else if same_text(s, "PlasmaExciter") {
            Some(DSPItem::PlasmaExciter)
        } else if same_text(s, "PhotonCombiner") {
            Some(DSPItem::PhotonCombiner)
        } else if same_text(s, "ElectromagneticTurbine") {
            Some(DSPItem::ElectromagneticTurbine)
        } else if same_text(s, "Processor") {
            Some(DSPItem::Processor)
        } else if same_text(s, "ProliferatorMkII") {
            Some(DSPItem::ProliferatorMkII)
        } else if same_text(s, "AnnihilationConstraintSphere") {
            Some(DSPItem::AnnihilationConstraintSphere)
        } else if same_text(s, "TitaniumGlass") {
            Some(DSPItem::TitaniumGlass)
        } else if same_text(s, "ParticleBroadband") {
            Some(DSPItem::ParticleBroadband)
        } else if same_text(s, "LogisticsDrone") {
            Some(DSPItem::LogisticsDrone)
        } else if same_text(s, "UnipolarMagnet") {
            Some(DSPItem::UnipolarMagnet)
        } else if same_text(s, "Foundation") {
            Some(DSPItem::Foundation)
        } else if same_text(s, "CriticalPhoton") {
            Some(DSPItem::CriticalPhoton)
        } else if same_text(s, "ParticleContainer") {
            Some(DSPItem::ParticleContainer)
        } else if same_text(s, "SuperMagneticRing") {
            Some(DSPItem::SuperMagneticRing)
        } else if same_text(s, "GravitonLens") {
            Some(DSPItem::GravitonLens)
        } else if same_text(s, "ProliferatorMkIII") {
            Some(DSPItem::ProliferatorMkIII)
        } else if same_text(s, "SpaceWarper") {
            Some(DSPItem::SpaceWarper)
        } else if same_text(s, "PlaneFilter") {
            Some(DSPItem::PlaneFilter)
        } else if same_text(s, "QuantumChip") {
            Some(DSPItem::QuantumChip)
        } else if same_text(s, "LogisticsVessel") {
            Some(DSPItem::LogisticsVessel)
        } else if same_text(s, "Log") {
            Some(DSPItem::Log)
        } else if same_text(s, "ElectromagneticMatrix") {
            Some(DSPItem::ElectromagneticMatrix)
        } else if same_text(s, "EnergyMatrix") {
            Some(DSPItem::EnergyMatrix)
        } else if same_text(s, "StructureMatrix") {
            Some(DSPItem::StructureMatrix)
        } else if same_text(s, "InformationMatrix") {
            Some(DSPItem::InformationMatrix)
        } else if same_text(s, "GravityMatrix") {
            Some(DSPItem::GravityMatrix)
        } else if same_text(s, "UniverseMatrix") {
            Some(DSPItem::UniverseMatrix)
        } else if same_text(s, "SolarSail") {
            Some(DSPItem::SolarSail)
        } else if same_text(s, "FrameMaterial") {
            Some(DSPItem::FrameMaterial)
        } else if same_text(s, "DysonSphereComponent") {
            Some(DSPItem::DysonSphereComponent)
        } else if same_text(s, "SmallCarrierRocket") {
            Some(DSPItem::SmallCarrierRocket)
        } else if same_text(s, "PlantFuel") {
            Some(DSPItem::PlantFuel)
        } else if same_text(s, "TeslaTower") {
            Some(DSPItem::TeslaTower)
        } else if same_text(s, "WirelessPowerTower") {
            Some(DSPItem::WirelessPowerTower)
        } else if same_text(s, "SatelliteSubstation") {
            Some(DSPItem::SatelliteSubstation)
        } else if same_text(s, "WindTurbine") {
            Some(DSPItem::WindTurbine)
        } else if same_text(s, "ThermalPowerStation") {
            Some(DSPItem::ThermalPowerStation)
        } else if same_text(s, "SolarPanel") {
            Some(DSPItem::SolarPanel)
        } else if same_text(s, "GeothermalPowerStation") {
            Some(DSPItem::GeothermalPowerStation)
        } else if same_text(s, "MiniFusionPowerStation") {
            Some(DSPItem::MiniFusionPowerStation)
        } else if same_text(s, "EnergyExchanger") {
            Some(DSPItem::EnergyExchanger)
        } else if same_text(s, "RayReceiver") {
            Some(DSPItem::RayReceiver)
        } else if same_text(s, "ArtificialStar") {
            Some(DSPItem::ArtificialStar)
        } else if same_text(s, "ConveyorBeltMKI") {
            Some(DSPItem::ConveyorBeltMKI)
        } else if same_text(s, "ConveyorBeltMKII") {
            Some(DSPItem::ConveyorBeltMKII)
        } else if same_text(s, "ConveyorBeltMKIII") {
            Some(DSPItem::ConveyorBeltMKIII)
        } else if same_text(s, "Splitter") {
            Some(DSPItem::Splitter)
        } else if same_text(s, "AutomaticPiler") {
            Some(DSPItem::AutomaticPiler)
        } else if same_text(s, "TrafficMonitor") {
            Some(DSPItem::TrafficMonitor)
        } else if same_text(s, "StorageMKI") {
            Some(DSPItem::StorageMKI)
        } else if same_text(s, "StorageMKII") {
            Some(DSPItem::StorageMKII)
        } else if same_text(s, "StorageTank") {
            Some(DSPItem::StorageTank)
        } else if same_text(s, "PlanetaryLogisticsStation") {
            Some(DSPItem::PlanetaryLogisticsStation)
        } else if same_text(s, "InterstellarLogisticsStation") {
            Some(DSPItem::InterstellarLogisticsStation)
        } else if same_text(s, "OrbitalCollector") {
            Some(DSPItem::OrbitalCollector)
        } else if same_text(s, "SorterMKI") {
            Some(DSPItem::SorterMKI)
        } else if same_text(s, "SorterMKII") {
            Some(DSPItem::SorterMKII)
        } else if same_text(s, "SorterMKIII") {
            Some(DSPItem::SorterMKIII)
        } else if same_text(s, "MiningMachine") {
            Some(DSPItem::MiningMachine)
        } else if same_text(s, "AdvancedMiningMachine") {
            Some(DSPItem::AdvancedMiningMachine)
        } else if same_text(s, "WaterPump") {
            Some(DSPItem::WaterPump)
        } else if same_text(s, "OilExtractor") {
            Some(DSPItem::OilExtractor)
        } else if same_text(s, "OilRefinery") {
            Some(DSPItem::OilRefinery)
        } else if same_text(s, "MiniatureParticleCollider") {
            Some(DSPItem::MiniatureParticleCollider)
        } else if same_text(s, "EMRailEjector") {
            Some(DSPItem::EMRailEjector)
        } else if same_text(s, "VerticalLaunchingSilo") {
            Some(DSPItem::VerticalLaunchingSilo)
        } else if same_text(s, "AssemblingMachineMkI") {
            Some(DSPItem::AssemblingMachineMkI)
        } else if same_text(s, "AssemblingMachineMkII") {
            Some(DSPItem::AssemblingMachineMkII)
        } else if same_text(s, "AssemblingMachineMkIII") {
            Some(DSPItem::AssemblingMachineMkIII)
        } else if same_text(s, "ArcSmelter") {
            Some(DSPItem::ArcSmelter)
        } else if same_text(s, "PlaneSmelter") {
            Some(DSPItem::PlaneSmelter)
        } else if same_text(s, "SprayCoater") {
            Some(DSPItem::SprayCoater)
        } else if same_text(s, "Fractionator") {
            Some(DSPItem::Fractionator)
        } else if same_text(s, "ChemicalPlant") {
            Some(DSPItem::ChemicalPlant)
        } else if same_text(s, "MatrixLab") {
            Some(DSPItem::MatrixLab)
        } else if same_text(s, "Accumulator") {
            Some(DSPItem::Accumulator)
        } else if same_text(s, "AccumulatorFull") {
            Some(DSPItem::AccumulatorFull)
        } else {
            assert forall|x: Self| x.name_spec() != s@ by {}
            None
        }
    }

    /// Whether the item is a conveyor belt.
    pub fn is_belt(&self) -> (r: bool)
        ensures
            r == (*self == DSPItem::ConveyorBeltMKI || *self == DSPItem::ConveyorBeltMKII || *self
                == DSPItem::ConveyorBeltMKIII),
    {
        match self {
            DSPItem::ConveyorBeltMKI | DSPItem::ConveyorBeltMKII | DSPItem::ConveyorBeltMKIII => true,
            _ => false,
        }
    }

    /// Whether the item is a logistics station.
    pub fn is_station(&self) -> (r: bool)
        ensures
            r == (*self == DSPItem::PlanetaryLogisticsStation || *self
                == DSPItem::InterstellarLogisticsStation),
    {
        match self {
            DSPItem::PlanetaryLogisticsStation | DSPItem::InterstellarLogisticsStation => true,
            _ => false,
        }
    }

    /// Whether the item is a logistics station that trades between planets.
    pub fn is_interstellar_station(&self) -> (r: bool)
        ensures
            r == (*self == DSPItem::InterstellarLogisticsStation),
    {
        match self {
            DSPItem::InterstellarLogisticsStation => true,
            _ => false,
        }
    }
}

/// The recipes of the game.
#[derive(Clone, Copy, Debug, PartialEq, Eq, Hash, Structural)]
pub enum DSPRecipe {
    Gear,
    MagneticCoil,
    Prism,
    PlasmaExciter,
    HydrogenFuelRod,
    Thruster,
    ReinforcedThruster,
    TitaniumCrystal,
    CasimirCrystal,
    CasimirCrystalAdvanced,
    TitaniumGlass,
    ParticleBroadband,
    PlaneFilter,
    DeuteronFuelRod,
    AnnihilationConstraintSphere,
    AntimatterFuelRod,
    CircuitBoard,
    Processor,
    QuantumChip,
    MicrocrystallineComponent,
    OrganicCrystalOriginal,
    CrystalSiliconAdvanced,
    PhotonCombiner,
    PhotonCombinerAdvanced,
    SolarSail,
    SpaceWarper,
    SpaceWarperAdvanced,
    FrameMaterial,
    DysonSphereComponent,
    SmallCarrierRocket,
    LogisticsDrone,
    LogisticsVessel,
    ElectricMotor,
    ElectromagneticTurbine,
    ParticleContainer,
    ParticleContainerAdvanced,
    GravitonLens,
    SuperMagneticRing,
    ProliferatorMkI,
    ProliferatorMkII,
    ProliferatorMkIII,
    Foundation,
    Plastic,
    SulfuricAcid,
    OrganicCrystal,
    Graphene,
    GrapheneAdvanced,
    CarbonNanotube,
    CarbonNanotubeAdvanced,
    DeuteriumFractionation,
    Deuterium,
    MassEnergyStorage,
    StrangeMatter,
    PlasmaRefining,
    XRayCracking,
    ElectromagneticMatrix,
    EnergyMatrix,
    StructureMatrix,
    InformationMatrix,
    GravityMatrix,
    UniverseMatrix,
    IronIngot,
    Magnet,
    CopperIngot,
    StoneBrick,
    EnergeticGraphite,
    SiliconOre,
    CrystalSilicon,
    Glass,
    HighPuritySilicon,
    Diamond,
    DiamondAdvanced,
    Steel,
    TitaniumIngot,
    TitaniumAlloy,
    WindTurbine,
    TeslaTower,
    MatrixLab,
    WirelessPowerTower,
    OilExtractor,
    OilRefinery,
    ChemicalPlant,
    MiniatureParticleCollider,
    ArtificialStar,
    AssemblingMachineMkI,
    AssemblingMachineMkII,
    AssemblingMachineMkIII,
    MiningMachine,
    WaterPump,
    ArcSmelter,
    ThermalPowerPlant,
    SolarPanel,
    EMRailEjector,
    RayReceiver,
    SatelliteSubstation,
    Accumulator,
    EnergyExchanger,
    VerticalLaunchingSilo,
    ConveyorBeltMKI,
    ConveyorBeltMKII,
    ConveyorBeltMKIII,
    SorterMKI,
    SorterMKII,
    SorterMKIII,
    StorageMKI,
    StorageMKII,
    Splitter,
    PlanetaryLogisticsStation,
    InterstellarLogisticsStation,
    SprayCoater,
    Fractionator,
    OrbitalCollector,
    MiniFusionPowerPlant,
    StorageTank,
    PlaneSmelter,
    TrafficMonitor,
    GeothermalPowerStation,
    AdvancedMiningMachine,
    AutomaticPiler,
}

impl DSPRecipe {
    /// The number that the game gives the recipe.
    pub open spec fn id(self) -> u16 {
        match self {
            DSPRecipe::Gear => 5,
            DSPRecipe::MagneticCoil => 6,
            DSPRecipe::Prism => 11,
            DSPRecipe::PlasmaExciter => 12,
            DSPRecipe::HydrogenFuelRod => 19,
            DSPRecipe::Thruster => 20,
            DSPRecipe::ReinforcedThruster => 21,
            DSPRecipe::TitaniumCrystal => 26,
            DSPRecipe::CasimirCrystal => 28,
            DSPRecipe::CasimirCrystalAdvanced => 29,
            DSPRecipe::TitaniumGlass => 30,
            DSPRecipe::ParticleBroadband => 36,
            DSPRecipe::PlaneFilter => 38,
            DSPRecipe::DeuteronFuelRod => 41,
            DSPRecipe::AnnihilationConstraintSphere => 42,
            DSPRecipe::AntimatterFuelRod => 44,
            DSPRecipe::CircuitBoard => 50,
            DSPRecipe::Processor => 51,
            DSPRecipe::QuantumChip => 52,
            DSPRecipe::MicrocrystallineComponent => 53,
            DSPRecipe::OrganicCrystalOriginal => 54,
            DSPRecipe::CrystalSiliconAdvanced => 62,
            DSPRecipe::PhotonCombiner => 68,
            DSPRecipe::PhotonCombinerAdvanced => 69,
            DSPRecipe::SolarSail => 70,
            DSPRecipe::SpaceWarper => 78,
            DSPRecipe::SpaceWarperAdvanced => 79,
            DSPRecipe::FrameMaterial => 80,
            DSPRecipe::DysonSphereComponent => 81,
            DSPRecipe::SmallCarrierRocket => 83,
            DSPRecipe::LogisticsDrone => 94,
            DSPRecipe::LogisticsVessel => 96,
            DSPRecipe::ElectricMotor => 97,
            DSPRecipe::ElectromagneticTurbine => 98,
            DSPRecipe::ParticleContainer => 99,
            DSPRecipe::ParticleContainerAdvanced => 100,
            DSPRecipe::GravitonLens => 101,
            DSPRecipe::SuperMagneticRing => 103,
            DSPRecipe::ProliferatorMkI => 106,
            DSPRecipe::ProliferatorMkII => 107,
            DSPRecipe::ProliferatorMkIII => 108,
            DSPRecipe::Foundation => 112,
            DSPRecipe::Plastic => 23,
            DSPRecipe::SulfuricAcid => 24,
            DSPRecipe::OrganicCrystal => 25,
            DSPRecipe::Graphene => 31,
            DSPRecipe::GrapheneAdvanced => 32,
            DSPRecipe::CarbonNanotube => 33,
            DSPRecipe::CarbonNanotubeAdvanced => 35,
            DSPRecipe::DeuteriumFractionation => 115,
            DSPRecipe::Deuterium => 40,
            DSPRecipe::MassEnergyStorage => 74,
            DSPRecipe::StrangeMatter => 104,
            DSPRecipe::PlasmaRefining => 16,
            DSPRecipe::XRayCracking => 58,
            DSPRecipe::ElectromagneticMatrix => 9,
            DSPRecipe::EnergyMatrix => 18,
            DSPRecipe::StructureMatrix => 27,
            DSPRecipe::InformationMatrix => 55,
            DSPRecipe::GravityMatrix => 102,
            DSPRecipe::UniverseMatrix => 75,
            DSPRecipe::IronIngot => 1,
            DSPRecipe::Magnet => 2,
            DSPRecipe::CopperIngot => 3,
            DSPRecipe::StoneBrick => 4,
            DSPRecipe::EnergeticGraphite => 17,
            DSPRecipe::SiliconOre => 34,
            DSPRecipe::CrystalSilicon => 37,
            DSPRecipe::Glass => 57,
            DSPRecipe::HighPuritySilicon => 59,
            DSPRecipe::Diamond => 60,
            DSPRecipe::DiamondAdvanced => 61,
            DSPRecipe::Steel => 63,
            DSPRecipe::TitaniumIngot => 65,
            DSPRecipe::TitaniumAlloy => 66,
            DSPRecipe::WindTurbine => 7,
            DSPRecipe::TeslaTower => 8,
            DSPRecipe::MatrixLab => 10,
            DSPRecipe::WirelessPowerTower => 13,
            DSPRecipe::OilExtractor => 14,
            DSPRecipe::OilRefinery => 15,
            DSPRecipe::ChemicalPlant => 22,
            DSPRecipe::MiniatureParticleCollider => 39,
            DSPRecipe::ArtificialStar => 43,
            DSPRecipe::AssemblingMachineMkI => 45,
            DSPRecipe::AssemblingMachineMkII => 46,
            DSPRecipe::AssemblingMachineMkIII => 47,
            DSPRecipe::MiningMachine => 48,
            DSPRecipe::WaterPump => 49,
            DSPRecipe::ArcSmelter => 56,
            DSPRecipe::ThermalPowerPlant => 64,
            DSPRecipe::SolarPanel => 67,
            DSPRecipe::EMRailEjector => 71,
            DSPRecipe::RayReceiver => 72,
            DSPRecipe::SatelliteSubstation => 73,
            DSPRecipe::Accumulator => 76,
            DSPRecipe::EnergyExchanger => 77,
            DSPRecipe::VerticalLaunchingSilo => 82,
            DSPRecipe::ConveyorBeltMKI => 84,
            DSPRecipe::ConveyorBeltMKII => 89,
            DSPRecipe::ConveyorBeltMKIII => 92,
            DSPRecipe::SorterMKI => 85,
            DSPRecipe::SorterMKII => 88,
            DSPRecipe::SorterMKIII => 90,
            DSPRecipe::StorageMKI => 86,
            DSPRecipe::StorageMKII => 91,
            DSPRecipe::Splitter => 87,
            DSPRecipe::PlanetaryLogisticsStation => 93,
            DSPRecipe::InterstellarLogisticsStation => 95,
            DSPRecipe::SprayCoater => 109,
            DSPRecipe::Fractionator => 110,
            DSPRecipe::OrbitalCollector => 111,
            DSPRecipe::MiniFusionPowerPlant => 113,
            DSPRecipe::StorageTank => 114,
            DSPRecipe::PlaneSmelter => 116,
            DSPRecipe::TrafficMonitor => 117,
            DSPRecipe::GeothermalPowerStation => 118,
            DSPRecipe::AdvancedMiningMachine => 119,
            DSPRecipe::AutomaticPiler => 120,
        }
    }

    /// The name of the recipe.
    pub open spec fn name_spec(self) -> Seq<char> {
        match self {
            DSPRecipe::Gear => "Gear"@,
            DSPRecipe::MagneticCoil => "MagneticCoil"@,
            DSPRecipe::Prism => "Prism"@,
            DSPRecipe::PlasmaExciter => "PlasmaExciter"@,
            DSPRecipe::HydrogenFuelRod => "HydrogenFuelRod"@,
            DSPRecipe::Thruster => "Thruster"@,
            DSPRecipe::ReinforcedThruster => "ReinforcedThruster"@,
            DSPRecipe::TitaniumCrystal => "TitaniumCrystal"@,
            DSPRecipe::CasimirCrystal => "CasimirCrystal"@,
            DSPRecipe::CasimirCrystalAdvanced => "CasimirCrystalAdvanced"@,
            DSPRecipe::TitaniumGlass => "TitaniumGlass"@,
            DSPRecipe::ParticleBroadband => "ParticleBroadband"@,
            DSPRecipe::PlaneFilter => "PlaneFilter"@,
            DSPRecipe::DeuteronFuelRod => "DeuteronFuelRod"@,
            DSPRecipe::AnnihilationConstraintSphere => "AnnihilationConstraintSphere"@,
            DSPRecipe::AntimatterFuelRod => "AntimatterFuelRod"@,
            DSPRecipe::CircuitBoard => "CircuitBoard"@,
            DSPRecipe::Processor => "Processor"@,
            DSPRecipe::QuantumChip => "QuantumChip"@,
            DSPRecipe::MicrocrystallineComponent => "MicrocrystallineComponent"@,
            DSPRecipe::OrganicCrystalOriginal => "OrganicCrystalOriginal"@,
            DSPRecipe::CrystalSiliconAdvanced => "CrystalSiliconAdvanced"@,
            DSPRecipe::PhotonCombiner => "PhotonCombiner"@,
            DSPRecipe::PhotonCombinerAdvanced => "PhotonCombinerAdvanced"@,
            DSPRecipe::SolarSail => "SolarSail"@,
            DSPRecipe::SpaceWarper => "SpaceWarper"@,
            DSPRecipe::SpaceWarperAdvanced => "SpaceWarperAdvanced"@,
            DSPRecipe::FrameMaterial => "FrameMaterial"@,
            DSPRecipe::DysonSphereComponent => "DysonSphereComponent"@,
            DSPRecipe::SmallCarrierRocket => "SmallCarrierRocket"@,
            DSPRecipe::LogisticsDrone => "LogisticsDrone"@,
            DSPRecipe::LogisticsVessel => "LogisticsVessel"@,
            DSPRecipe::ElectricMotor => "ElectricMotor"@,
            DSPRecipe::ElectromagneticTurbine => "ElectromagneticTurbine"@,
            DSPRecipe::ParticleContainer => "ParticleContainer"@,
            DSPRecipe::ParticleContainerAdvanced => "ParticleContainerAdvanced"@,
            DSPRecipe::GravitonLens => "GravitonLens"@,
            DSPRecipe::SuperMagneticRing => "SuperMagneticRing"@,
            DSPRecipe::ProliferatorMkI => "ProliferatorMkI"@,
            DSPRecipe::ProliferatorMkII => "ProliferatorMkII"@,
            DSPRecipe::ProliferatorMkIII => "ProliferatorMkIII"@,
            DSPRecipe::Foundation => "Foundation"@,
            DSPRecipe::Plastic => "Plastic"@,
            DSPRecipe::SulfuricAcid => "SulfuricAcid"@,
            DSPRecipe::OrganicCrystal => "OrganicCrystal"@,
            DSPRecipe::Graphene => "Graphene"@,
            DSPRecipe::GrapheneAdvanced => "GrapheneAdvanced"@,
            DSPRecipe::CarbonNanotube => "CarbonNanotube"@,
            DSPRecipe::CarbonNanotubeAdvanced => "CarbonNanotubeAdvanced"@,
            DSPRecipe::DeuteriumFractionation => "DeuteriumFractionation"@,
            DSPRecipe::Deuterium => "Deuterium"@,
            DSPRecipe::MassEnergyStorage => "MassEnergyStorage"@,
            DSPRecipe::StrangeMatter => "StrangeMatter"@,
            DSPRecipe::PlasmaRefining => "PlasmaRefining"@,
            DSPRecipe::XRayCracking => "XRayCracking"@,
            DSPRecipe::ElectromagneticMatrix => "ElectromagneticMatrix"@,
            DSPRecipe::EnergyMatrix => "EnergyMatrix"@,
            DSPRecipe::StructureMatrix => "StructureMatrix"@,
            DSPRecipe::InformationMatrix => "InformationMatrix"@,
            DSPRecipe::GravityMatrix => "GravityMatrix"@,
            DSPRecipe::UniverseMatrix => "UniverseMatrix"@,
            DSPRecipe::IronIngot => "IronIngot"@,
            DSPRecipe::Magnet => "Magnet"@,
            DSPRecipe::CopperIngot => "CopperIngot"@,
            DSPRecipe::StoneBrick => "StoneBrick"@,
            DSPRecipe::EnergeticGraphite => "EnergeticGraphite"@,
            DSPRecipe::SiliconOre => "SiliconOre"@,
            DSPRecipe::CrystalSilicon => "CrystalSilicon"@,
            DSPRecipe::Glass => "Glass"@,
            DSPRecipe::HighPuritySilicon => "HighPuritySilicon"@,
            DSPRecipe::Diamond => "Diamond"@,
            DSPRecipe::DiamondAdvanced => "DiamondAdvanced"@,
            DSPRecipe::Steel => "Steel"@,
            DSPRecipe::TitaniumIngot => "TitaniumIngot"@,
            DSPRecipe::TitaniumAlloy => "TitaniumAlloy"@,
            DSPRecipe::WindTurbine => "WindTurbine"@,
            DSPRecipe::TeslaTower => "TeslaTower"@,
            DSPRecipe::MatrixLab => "MatrixLab"@,
            DSPRecipe::WirelessPowerTower => "WirelessPowerTower"@,
            DSPRecipe::OilExtractor => "OilExtractor"@,
            DSPRecipe::OilRefinery => "OilRefinery"@,
            DSPRecipe::ChemicalPlant => "ChemicalPlant"@,
            DSPRecipe::MiniatureParticleCollider => "MiniatureParticleCollider"@,
            DSPRecipe::ArtificialStar => "ArtificialStar"@,
            DSPRecipe::AssemblingMachineMkI => "AssemblingMachineMkI"@,
            DSPRecipe::AssemblingMachineMkII => "AssemblingMachineMkII"@,
            DSPRecipe::AssemblingMachineMkIII => "AssemblingMachineMkIII"@,
            DSPRecipe::MiningMachine => "MiningMachine"@,
            DSPRecipe::WaterPump => "WaterPump"@,
            DSPRecipe::ArcSmelter => "ArcSmelter"@,
            DSPRecipe::ThermalPowerPlant => "ThermalPowerPlant"@,
            DSPRecipe::SolarPanel => "SolarPanel"@,
            DSPRecipe::EMRailEjector => "EMRailEjector"@,
            DSPRecipe::RayReceiver => "RayReceiver"@,
            DSPRecipe::SatelliteSubstation => "SatelliteSubstation"@,
            DSPRecipe::Accumulator => "Accumulator"@,
            DSPRecipe::EnergyExchanger => "EnergyExchanger"@,
            DSPRecipe::VerticalLaunchingSilo => "VerticalLaunchingSilo"@,
            DSPRecipe::ConveyorBeltMKI => "ConveyorBeltMKI"@,
            DSPRecipe::ConveyorBeltMKII => "ConveyorBeltMKII"@,
            DSPRecipe::ConveyorBeltMKIII => "ConveyorBeltMKIII"@,
            DSPRecipe::SorterMKI => "SorterMKI"@,
            DSPRecipe::SorterMKII => "SorterMKII"@,
            DSPRecipe::SorterMKIII => "SorterMKIII"@,
            DSPRecipe::StorageMKI => "StorageMKI"@,
            DSPRecipe::StorageMKII => "StorageMKII"@,
            DSPRecipe::Splitter => "Splitter"@,
            DSPRecipe::PlanetaryLogisticsStation => "PlanetaryLogisticsStation"@,
            DSPRecipe::InterstellarLogisticsStation => "InterstellarLogisticsStation"@,
            DSPRecipe::SprayCoater => "SprayCoater"@,
            DSPRecipe::Fractionator => "Fractionator"@,
            DSPRecipe::OrbitalCollector => "OrbitalCollector"@,
            DSPRecipe::MiniFusionPowerPlant => "MiniFusionPowerPlant"@,
            DSPRecipe::StorageTank => "StorageTank"@,
            DSPRecipe::PlaneSmelter => "PlaneSmelter"@,
            DSPRecipe::TrafficMonitor => "TrafficMonitor"@,
            DSPRecipe::GeothermalPowerStation => "GeothermalPowerStation"@,
            DSPRecipe::AdvancedMiningMachine => "AdvancedMiningMachine"@,
            DSPRecipe::AutomaticPiler => "AutomaticPiler"@,
        }
    }

    /// The recipe with the number `n`, where there is one.
    pub open spec fn of_id(n: u16) -> Option<Self> {
        if exists|x: Self| x.id() == n {
            Some(choose|x: Self| x.id() == n)
        } else {
            None
        }
    }

    /// The recipe with the name `s`, where there is one.
    pub open spec fn of_name(s: Seq<char>) -> Option<Self> {
        if exists|x: Self| x.name_spec() == s {
            Some(choose|x: Self| x.name_spec() == s)
        } else {
            None
        }
    }

    /// The recipe with a given name is the only one with that name.
    pub proof fn lemma_of_name(x: Self)
        ensures
            Self::of_name(x.name_spec()) == Some(x),
    {
        let y = choose|y: Self| y.name_spec() == x.name_spec();
        Self::lemma_name_injective(x, y);
    }

    /// No two recipes share a number.
    pub proof fn lemma_id_injective(a: Self, b: Self)
        requires
            a.id() == b.id(),
        ensures
            a == b,
    {
    }

    /// The recipe with a given number is the only one with that number.
    pub proof fn lemma_of_id(x: Self)
        ensures
            Self::of_id(x.id()) == Some(x),
    {
        let y = choose|y: Self| y.id() == x.id();
        Self::lemma_id_injective(x, y);
    }

    /// The mark of the name of the recipe.
    pub closed spec fn name_mark(self) -> int {
        match self {
            DSPRecipe::Gear => 408508740,
            DSPRecipe::MagneticCoil => 282680204,
            DSPRecipe::Prism => 484220037,
            DSPRecipe::PlasmaExciter => 417029325,
            DSPRecipe::HydrogenFuelRod => 425319567,
            DSPRecipe::Thruster => 488414344,
            DSPRecipe::ReinforcedThruster => 480024978,
            DSPRecipe::TitaniumCrystal => 509237327,
            DSPRecipe::CasimirCrystal => 509303374,
            DSPRecipe::CasimirCrystalAdvanced => 273734230,
            DSPRecipe::TitaniumGlass => 299604045,
            DSPRecipe::ParticleBroadband => 408476241,
            DSPRecipe::PlaneFilter => 454793291,
            DSPRecipe::DeuteronFuelRod => 425499919,
            DSPRecipe::AnnihilationConstraintSphere => 408574044,
            DSPRecipe::AntimatterFuelRod => 492329809,
            DSPRecipe::CircuitBoard => 467491020,
            DSPRecipe::Processor => 483974089,
            DSPRecipe::QuantumChip => 282826827,
            DSPRecipe::MicrocrystallineComponent => 282909849,
            DSPRecipe::OrganicCrystalOriginal => 332454486,
            DSPRecipe::CrystalSiliconAdvanced => 273995862,
            DSPRecipe::PhotonCombiner => 412867854,
            DSPRecipe::PhotonCombinerAdvanced => 274455446,
            DSPRecipe::SolarSail => 408443657,
            DSPRecipe::SpaceWarper => 479778891,
            DSPRecipe::SpaceWarperAdvanced => 421026131,
            DSPRecipe::FrameMaterial => 425286477,
            DSPRecipe::DysonSphereComponent => 459019476,
            DSPRecipe::SmallCarrierRocket => 345529106,
            DSPRecipe::LogisticsDrone => 287103566,
            DSPRecipe::LogisticsVessel => 425531983,
            DSPRecipe::ElectricMotor => 324868301,
            DSPRecipe::ElectromagneticTurbine => 417029270,
            DSPRecipe::ParticleContainer => 488168017,
            DSPRecipe::ParticleContainerAdvanced => 479255321,
            DSPRecipe::GravitonLens => 320494988,
            DSPRecipe::SuperMagneticRing => 441670801,
            DSPRecipe::ProliferatorMkI => 467245839,
            DSPRecipe::ProliferatorMkII => 467245648,
            DSPRecipe::ProliferatorMkIII => 479828561,
            DSPRecipe::Foundation => 488349002,
            DSPRecipe::Plastic => 488135431,
            DSPRecipe::SulfuricAcid => 274553228,
            DSPRecipe::OrganicCrystal => 509319246,
            DSPRecipe::Graphene => 425220168,
            DSPRecipe::GrapheneAdvanced => 496589328,
            DSPRecipe::CarbonNanotube => 467392654,
            DSPRecipe::CarbonNanotubeAdvanced => 274226070,
            DSPRecipe::DeuteriumFractionation => 442326166,
            DSPRecipe::Deuterium => 442309961,
            DSPRecipe::MassEnergyStorage => 488345937,
            DSPRecipe::StrangeMatter => 408655949,
            DSPRecipe::PlasmaRefining => 442195150,
            DSPRecipe::XRayCracking => 449896012,
            DSPRecipe::ElectromagneticMatrix => 417029269,
            DSPRecipe::EnergyMatrix => 488234124,
            DSPRecipe::StructureMatrix => 408755535,
            DSPRecipe::InformationMatrix => 324754577,
            DSPRecipe::GravityMatrix => 408575373,
            DSPRecipe::UniverseMatrix => 408509838,
            DSPRecipe::IronIngot => 433822665,
            DSPRecipe::Magnet => 425318470,
            DSPRecipe::CopperIngot => 463215627,
            DSPRecipe::StoneBrick => 479960010,
            DSPRecipe::EnergeticGraphite => 408508881,
            DSPRecipe::SiliconOre => 463100682,
            DSPRecipe::CrystalSilicon => 454892750,
            DSPRecipe::Glass => 484121349,
            DSPRecipe::HighPuritySilicon => 442323985,
            DSPRecipe::Diamond => 467163719,
            DSPRecipe::DiamondAdvanced => 408656719,
            DSPRecipe::Steel => 425532677,
            DSPRecipe::TitaniumIngot => 307992653,
            DSPRecipe::TitaniumAlloy => 274438221,
            DSPRecipe::WindTurbine => 412687243,
            DSPRecipe::TeslaTower => 467344586,
            DSPRecipe::MatrixLab => 320642313,
            DSPRecipe::WirelessPowerTower => 480041746,
            DSPRecipe::OilExtractor => 417206604,
            DSPRecipe::OilRefinery => 462723851,
            DSPRecipe::ChemicalPlant => 337271629,
            DSPRecipe::MiniatureParticleCollider => 425287001,
            DSPRecipe::ArtificialStar => 454662734,
            DSPRecipe::AssemblingMachineMkI => 437983380,
            DSPRecipe::AssemblingMachineMkII => 442128533,
            DSPRecipe::AssemblingMachineMkIII => 442128534,
            DSPRecipe::MiningMachine => 417045069,
            DSPRecipe::WaterPump => 492395785,
            DSPRecipe::ArcSmelter => 454351050,
            DSPRecipe::ThermalPowerPlant => 479746897,
            DSPRecipe::SolarPanel => 408443658,
            DSPRecipe::EMRailEjector => 425351245,
            DSPRecipe::RayReceiver => 441753163,
            DSPRecipe::SatelliteSubstation => 484072211,
            DSPRecipe::Accumulator => 408770763,
            DSPRecipe::EnergyExchanger => 408837263,
            DSPRecipe::VerticalLaunchingSilo => 442177749,
            DSPRecipe::ConveyorBeltMKI => 454974863,
            DSPRecipe::ConveyorBeltMKII => 454973776,
            DSPRecipe::ConveyorBeltMKIII => 488528209,
            DSPRecipe::SorterMKI => 324869257,
            DSPRecipe::SorterMKII => 324869258,
            DSPRecipe::SorterMKIII => 316480651,
            DSPRecipe::StorageMKI => 425499594,
            DSPRecipe::StorageMKII => 324836299,
            DSPRecipe::Splitter => 488315656,
            DSPRecipe::PlanetaryLogisticsStation => 417224793,
            DSPRecipe::InterstellarLogisticsStation => 442177884,
            DSPRecipe::SprayCoater => 408444043,
            DSPRecipe::Fractionator => 408754380,
            DSPRecipe::OrbitalCollector => 454581520,
            DSPRecipe::MiniFusionPowerPlant => 425516372,
            DSPRecipe::StorageTank => 354196427,
            DSPRecipe::PlaneSmelter => 454646668,
            DSPRecipe::TrafficMonitor => 463051150,
            DSPRecipe::GeothermalPowerStation => 479942998,
            DSPRecipe::AdvancedMiningMachine => 324606165,
            DSPRecipe::AutomaticPiler => 337337294,
        }
    }

    /// The mark of the name of each of the recipes is what its text gives.
    proof fn lemma_name_mark(self)
        ensures
            mark(self.name_spec()) == self.name_mark(),
    {
        reveal(mark);
        reveal_strlit("Gear");
        reveal_strlit("MagneticCoil");
        reveal_strlit("Prism");
        reveal_strlit("PlasmaExciter");
        reveal_strlit("HydrogenFuelRod");
        reveal_strlit("Thruster");
        reveal_strlit("ReinforcedThruster");
        reveal_strlit("TitaniumCrystal");
        reveal_strlit("CasimirCrystal");
        reveal_strlit("CasimirCrystalAdvanced");
        reveal_strlit("TitaniumGlass");
        reveal_strlit("ParticleBroadband");
        reveal_strlit("PlaneFilter");
        reveal_strlit("DeuteronFuelRod");
        reveal_strlit("AnnihilationConstraintSphere");
        reveal_strlit("AntimatterFuelRod");
        reveal_strlit("CircuitBoard");
        reveal_strlit("Processor");
        reveal_strlit("QuantumChip");
        reveal_strlit("MicrocrystallineComponent");
        reveal_strlit("OrganicCrystalOriginal");
        reveal_strlit("CrystalSiliconAdvanced");
        reveal_strlit("PhotonCombiner");
        reveal_strlit("PhotonCombinerAdvanced");
        reveal_strlit("SolarSail");
        reveal_strlit("SpaceWarper");
        reveal_strlit("SpaceWarperAdvanced");
        reveal_strlit("FrameMaterial");
        reveal_strlit("DysonSphereComponent");
        reveal_strlit("SmallCarrierRocket");
        reveal_strlit("LogisticsDrone");
        reveal_strlit("LogisticsVessel");
        reveal_strlit("ElectricMotor");
        reveal_strlit("ElectromagneticTurbine");
        reveal_strlit("ParticleContainer");
        reveal_strlit("ParticleContainerAdvanced");
        reveal_strlit("GravitonLens");
        reveal_strlit("SuperMagneticRing");
        reveal_strlit("ProliferatorMkI");
        reveal_strlit("ProliferatorMkII");
        reveal_strlit("ProliferatorMkIII");
        reveal_strlit("Foundation");
        reveal_strlit("Plastic");
        reveal_strlit("SulfuricAcid");
        reveal_strlit("OrganicCrystal");
        reveal_strlit("Graphene");
        reveal_strlit("GrapheneAdvanced");
        reveal_strlit("CarbonNanotube");
        reveal_strlit("CarbonNanotubeAdvanced");
        reveal_strlit("DeuteriumFractionation");
        reveal_strlit("Deuterium");
        reveal_strlit("MassEnergyStorage");
        reveal_strlit("StrangeMatter");
        reveal_strlit("PlasmaRefining");
        reveal_strlit("XRayCracking");
        reveal_strlit("ElectromagneticMatrix");
        reveal_strlit("EnergyMatrix");
        reveal_strlit("StructureMatrix");
        reveal_strlit("InformationMatrix");
        reveal_strlit("GravityMatrix");
        reveal_strlit("UniverseMatrix");
        reveal_strlit("IronIngot");
        reveal_strlit("Magnet");
        reveal_strlit("CopperIngot");
        reveal_strlit("StoneBrick");
        reveal_strlit("EnergeticGraphite");
        reveal_strlit("SiliconOre");
        reveal_strlit("CrystalSilicon");
        reveal_strlit("Glass");
        reveal_strlit("HighPuritySilicon");
        reveal_strlit("Diamond");
        reveal_strlit("DiamondAdvanced");
        reveal_strlit("Steel");
        reveal_strlit("TitaniumIngot");
        reveal_strlit("TitaniumAlloy");
        reveal_strlit("WindTurbine");
        reveal_strlit("TeslaTower");
        reveal_strlit("MatrixLab");
        reveal_strlit("WirelessPowerTower");
        reveal_strlit("OilExtractor");
        reveal_strlit("OilRefinery");
        reveal_strlit("ChemicalPlant");
        reveal_strlit("MiniatureParticleCollider");
        reveal_strlit("ArtificialStar");
        reveal_strlit("AssemblingMachineMkI");
        reveal_strlit("AssemblingMachineMkII");
        reveal_strlit("AssemblingMachineMkIII");
        reveal_strlit("MiningMachine");
        reveal_strlit("WaterPump");
        reveal_strlit("ArcSmelter");
        reveal_strlit("ThermalPowerPlant");
        reveal_strlit("SolarPanel");
        reveal_strlit("EMRailEjector");
        reveal_strlit("RayReceiver");
        reveal_strlit("SatelliteSubstation");
        reveal_strlit("Accumulator");
        reveal_strlit("EnergyExchanger");
        reveal_strlit("VerticalLaunchingSilo");
        reveal_strlit("ConveyorBeltMKI");
        reveal_strlit("ConveyorBeltMKII");
        reveal_strlit("ConveyorBeltMKIII");
        reveal_strlit("SorterMKI");
        reveal_strlit("SorterMKII");
        reveal_strlit("SorterMKIII");
        reveal_strlit("StorageMKI");
        reveal_strlit("StorageMKII");
        reveal_strlit("Splitter");
        reveal_strlit("PlanetaryLogisticsStation");
        reveal_strlit("InterstellarLogisticsStation");
        reveal_strlit("SprayCoater");
        reveal_strlit("Fractionator");
        reveal_strlit("OrbitalCollector");
        reveal_strlit("MiniFusionPowerPlant");
        reveal_strlit("StorageTank");
        reveal_strlit("PlaneSmelter");
        reveal_strlit("TrafficMonitor");
        reveal_strlit("GeothermalPowerStation");
        reveal_strlit("AdvancedMiningMachine");
        reveal_strlit("AutomaticPiler");
    }

    /// No two recipes share a name.
    pub proof fn lemma_name_injective(a: Self, b: Self)
        requires
            a.name_spec() == b.name_spec(),
        ensures
            a == b,
    {
        a.lemma_name_mark();
        b.lemma_name_mark();
        assert(a.name_mark() == b.name_mark());
        Self::lemma_marks_differ(a, b);
    }

    /// No two recipes have names of the same mark.
    proof fn lemma_marks_differ(a: Self, b: Self)
        requires
            a.name_mark() == b.name_mark(),
        ensures
            a == b,
    {
    }

    /// The number of the recipe.
    pub fn to_u16(self) -> (r: u16)
        ensures
            r == self.id(),
    {
        match self {
            DSPRecipe::Gear => 5,
            DSPRecipe::MagneticCoil => 6,
            DSPRecipe::Prism => 11,
            DSPRecipe::PlasmaExciter => 12,
            DSPRecipe::HydrogenFuelRod => 19,
            DSPRecipe::Thruster => 20,
            DSPRecipe::ReinforcedThruster => 21,
            DSPRecipe::TitaniumCrystal => 26,
            DSPRecipe::CasimirCrystal => 28,
            DSPRecipe::CasimirCrystalAdvanced => 29,
            DSPRecipe::TitaniumGlass => 30,
            DSPRecipe::ParticleBroadband => 36,
            DSPRecipe::PlaneFilter => 38,
            DSPRecipe::DeuteronFuelRod => 41,
            DSPRecipe::AnnihilationConstraintSphere => 42,
            DSPRecipe::AntimatterFuelRod => 44,
            DSPRecipe::CircuitBoard => 50,
            DSPRecipe::Processor => 51,
            DSPRecipe::QuantumChip => 52,
            DSPRecipe::MicrocrystallineComponent => 53,
            DSPRecipe::OrganicCrystalOriginal => 54,
            DSPRecipe::CrystalSiliconAdvanced => 62,
            DSPRecipe::PhotonCombiner => 68,
            DSPRecipe::PhotonCombinerAdvanced => 69,
            DSPRecipe::SolarSail => 70,
            DSPRecipe::SpaceWarper => 78,
            DSPRecipe::SpaceWarperAdvanced => 79,
            DSPRecipe::FrameMaterial => 80,
            DSPRecipe::DysonSphereComponent => 81,
            DSPRecipe::SmallCarrierRocket => 83,
            DSPRecipe::LogisticsDrone => 94,
            DSPRecipe::LogisticsVessel => 96,
            DSPRecipe::ElectricMotor => 97,
            DSPRecipe::ElectromagneticTurbine => 98,
            DSPRecipe::ParticleContainer => 99,
            DSPRecipe::ParticleContainerAdvanced => 100,
            DSPRecipe::GravitonLens => 101,
            DSPRecipe::SuperMagneticRing => 103,
            DSPRecipe::ProliferatorMkI => 106,
            DSPRecipe::ProliferatorMkII => 107,
            DSPRecipe::ProliferatorMkIII => 108,
            DSPRecipe::Foundation => 112,
            DSPRecipe::Plastic => 23,
            DSPRecipe::SulfuricAcid => 24,
            DSPRecipe::OrganicCrystal => 25,
            DSPRecipe::Graphene => 31,
            DSPRecipe::GrapheneAdvanced => 32,
            DSPRecipe::CarbonNanotube => 33,
            DSPRecipe::CarbonNanotubeAdvanced => 35,
            DSPRecipe::DeuteriumFractionation => 115,
            DSPRecipe::Deuterium => 40,
            DSPRecipe::MassEnergyStorage => 74,
            DSPRecipe::StrangeMatter => 104,
            DSPRecipe::PlasmaRefining => 16,
            DSPRecipe::XRayCracking => 58,
            DSPRecipe::ElectromagneticMatrix => 9,
            DSPRecipe::EnergyMatrix => 18,
            DSPRecipe::StructureMatrix => 27,
            DSPRecipe::InformationMatrix => 55,
            DSPRecipe::GravityMatrix => 102,
            DSPRecipe::UniverseMatrix => 75,
            DSPRecipe::IronIngot => 1,
            DSPRecipe::Magnet => 2,
            DSPRecipe::CopperIngot => 3,
            DSPRecipe::StoneBrick => 4,
            DSPRecipe::EnergeticGraphite => 17,
            DSPRecipe::SiliconOre => 34,
            DSPRecipe::CrystalSilicon => 37,
            DSPRecipe::Glass => 57,
            DSPRecipe::HighPuritySilicon => 59,
            DSPRecipe::Diamond => 60,
            DSPRecipe::DiamondAdvanced => 61,
            DSPRecipe::Steel => 63,
            DSPRecipe::TitaniumIngot => 65,
            DSPRecipe::TitaniumAlloy => 66,
            DSPRecipe::WindTurbine => 7,
            DSPRecipe::TeslaTower => 8,
            DSPRecipe::MatrixLab => 10,
            DSPRecipe::WirelessPowerTower => 13,
            DSPRecipe::OilExtractor => 14,
            DSPRecipe::OilRefinery => 15,
            DSPRecipe::ChemicalPlant => 22,
            DSPRecipe::MiniatureParticleCollider => 39,
            DSPRecipe::ArtificialStar => 43,
            DSPRecipe::AssemblingMachineMkI => 45,
            DSPRecipe::AssemblingMachineMkII => 46,
            DSPRecipe::AssemblingMachineMkIII => 47,
            DSPRecipe::MiningMachine => 48,
            DSPRecipe::WaterPump => 49,
            DSPRecipe::ArcSmelter => 56,
            DSPRecipe::ThermalPowerPlant => 64,
            DSPRecipe::SolarPanel => 67,
            DSPRecipe::EMRailEjector => 71,
            DSPRecipe::RayReceiver => 72,
            DSPRecipe::SatelliteSubstation => 73,
            DSPRecipe::Accumulator => 76,
            DSPRecipe::EnergyExchanger => 77,
            DSPRecipe::VerticalLaunchingSilo => 82,
            DSPRecipe::ConveyorBeltMKI => 84,
            DSPRecipe::ConveyorBeltMKII => 89,
            DSPRecipe::ConveyorBeltMKIII => 92,
            DSPRecipe::SorterMKI => 85,
            DSPRecipe::SorterMKII => 88,
            DSPRecipe::SorterMKIII => 90,
            DSPRecipe::StorageMKI => 86,
            DSPRecipe::StorageMKII => 91,
            DSPRecipe::Splitter => 87,
            DSPRecipe::PlanetaryLogisticsStation => 93,
            DSPRecipe::InterstellarLogisticsStation => 95,
            DSPRecipe::SprayCoater => 109,
            DSPRecipe::Fractionator => 110,
            DSPRecipe::OrbitalCollector => 111,
            DSPRecipe::MiniFusionPowerPlant => 113,
            DSPRecipe::StorageTank => 114,
            DSPRecipe::PlaneSmelter => 116,
            DSPRecipe::TrafficMonitor => 117,
            DSPRecipe::GeothermalPowerStation => 118,
            DSPRecipe::AdvancedMiningMachine => 119,
            DSPRecipe::AutomaticPiler => 120,
        }
    }

    /// The recipe with the number `n`. Fails where the catalog holds none.
    pub fn try_from(n: u16) -> (r: Result<Self, Error>)
        ensures
            match r {
                Ok(x) => Self::of_id(n) == Some(x) && x.id() == n,
                Err(e) => Self::of_id(n) is None && e == Error::UnknownIdentifier,
            },
    {
        let found = match n {
            5 => Some(DSPRecipe::Gear),
            6 => Some(DSPRecipe::MagneticCoil),
            11 => Some(DSPRecipe::Prism),
            12 => Some(DSPRecipe::PlasmaExciter),
            19 => Some(DSPRecipe::HydrogenFuelRod),
            20 => Some(DSPRecipe::Thruster),
            21 => Some(DSPRecipe::ReinforcedThruster),
            26 => Some(DSPRecipe::TitaniumCrystal),
            28 => Some(DSPRecipe::CasimirCrystal),
            29 => Some(DSPRecipe::CasimirCrystalAdvanced),
            30 => Some(DSPRecipe::TitaniumGlass),
            36 => Some(DSPRecipe::ParticleBroadband),
            38 => Some(DSPRecipe::PlaneFilter),
            41 => Some(DSPRecipe::DeuteronFuelRod),
            42 => Some(DSPRecipe::AnnihilationConstraintSphere),
            44 => Some(DSPRecipe::AntimatterFuelRod),
            50 => Some(DSPRecipe::CircuitBoard),
            51 => Some(DSPRecipe::Processor),
            52 => Some(DSPRecipe::QuantumChip),
            53 => Some(DSPRecipe::MicrocrystallineComponent),
            54 => Some(DSPRecipe::OrganicCrystalOriginal),
            62 => Some(DSPRecipe::CrystalSiliconAdvanced),
            68 => Some(DSPRecipe::PhotonCombiner),
            69 => Some(DSPRecipe::PhotonCombinerAdvanced),
            70 => Some(DSPRecipe::SolarSail),
            78 => Some(DSPRecipe::SpaceWarper),
            79 => Some(DSPRecipe::SpaceWarperAdvanced),
            80 => Some(DSPRecipe::FrameMaterial),
            81 => Some(DSPRecipe::DysonSphereComponent),
            83 => Some(DSPRecipe::SmallCarrierRocket),
            94 => Some(DSPRecipe::LogisticsDrone),
            96 => Some(DSPRecipe::LogisticsVessel),
            97 => Some(DSPRecipe::ElectricMotor),
            98 => Some(DSPRecipe::ElectromagneticTurbine),
            99 => Some(DSPRecipe::ParticleContainer),
            100 => Some(DSPRecipe::ParticleContainerAdvanced),
            101 => Some(DSPRecipe::GravitonLens),
            103 => Some(DSPRecipe::SuperMagneticRing),
            106 => Some(DSPRecipe::ProliferatorMkI),
            107 => Some(DSPRecipe::ProliferatorMkII),
            108 => Some(DSPRecipe::ProliferatorMkIII),
            112 => Some(DSPRecipe::Foundation),
            23 => Some(DSPRecipe::Plastic),
            24 => Some(DSPRecipe::SulfuricAcid),
            25 => Some(DSPRecipe::OrganicCrystal),
            31 => Some(DSPRecipe::Graphene),
            32 => Some(DSPRecipe::GrapheneAdvanced),
            33 => Some(DSPRecipe::CarbonNanotube),
            35 => Some(DSPRecipe::CarbonNanotubeAdvanced),
            115 => Some(DSPRecipe::DeuteriumFractionation),
            40 => Some(DSPRecipe::Deuterium),
            74 => Some(DSPRecipe::MassEnergyStorage),
            104 => Some(DSPRecipe::StrangeMatter),
            16 => Some(DSPRecipe::PlasmaRefining),
            58 => Some(DSPRecipe::XRayCracking),
            9 => Some(DSPRecipe::ElectromagneticMatrix),
            18 => Some(DSPRecipe::EnergyMatrix),
            27 => Some(DSPRecipe::StructureMatrix),
            55 => Some(DSPRecipe::InformationMatrix),
            102 => Some(DSPRecipe::GravityMatrix),
            75 => Some(DSPRecipe::UniverseMatrix),
            1 => Some(DSPRecipe::IronIngot),
            2 => Some(DSPRecipe::Magnet),
            3 => Some(DSPRecipe::CopperIngot),
            4 => Some(DSPRecipe::StoneBrick),
            17 => Some(DSPRecipe::EnergeticGraphite),
            34 => Some(DSPRecipe::SiliconOre),
            37 => Some(DSPRecipe::CrystalSilicon),
            57 => Some(DSPRecipe::Glass),
            59 => Some(DSPRecipe::HighPuritySilicon),
            60 => Some(DSPRecipe::Diamond),
            61 => Some(DSPRecipe::DiamondAdvanced),
            63 => Some(DSPRecipe::Steel),
            65 => Some(DSPRecipe::TitaniumIngot),
            66 => Some(DSPRecipe::TitaniumAlloy),
            7 => Some(DSPRecipe::WindTurbine),
            8 => Some(DSPRecipe::TeslaTower),
            10 => Some(DSPRecipe::MatrixLab),
            13 => Some(DSPRecipe::WirelessPowerTower),
            14 => Some(DSPRecipe::OilExtractor),
            15 => Some(DSPRecipe::OilRefinery),
            22 => Some(DSPRecipe::ChemicalPlant),
            39 => Some(DSPRecipe::MiniatureParticleCollider),
            43 => Some(DSPRecipe::ArtificialStar),
            45 => Some(DSPRecipe::AssemblingMachineMkI),
            46 => Some(DSPRecipe::AssemblingMachineMkII),
            47 => Some(DSPRecipe::AssemblingMachineMkIII),
            48 => Some(DSPRecipe::MiningMachine),
            49 => Some(DSPRecipe::WaterPump),
            56 => Some(DSPRecipe::ArcSmelter),
            64 => Some(DSPRecipe::ThermalPowerPlant),
            67 => Some(DSPRecipe::SolarPanel),
            71 => Some(DSPRecipe::EMRailEjector),
            72 => Some(DSPRecipe::RayReceiver),
            73 => Some(DSPRecipe::SatelliteSubstation),
            76 => Some(DSPRecipe::Accumulator),
            77 => Some(DSPRecipe::EnergyExchanger),
            82 => Some(DSPRecipe::VerticalLaunchingSilo),
            84 => Some(DSPRecipe::ConveyorBeltMKI),
            89 => Some(DSPRecipe::ConveyorBeltMKII),
            92 => Some(DSPRecipe::ConveyorBeltMKIII),
            85 => Some(DSPRecipe::SorterMKI),
            88 => Some(DSPRecipe::SorterMKII),
            90 => Some(DSPRecipe::SorterMKIII),
            86 => Some(DSPRecipe::StorageMKI),
            91 => Some(DSPRecipe::StorageMKII),
            87 => Some(DSPRecipe::Splitter),
            93 => Some(DSPRecipe::PlanetaryLogisticsStation),
            95 => Some(DSPRecipe::InterstellarLogisticsStation),
            109 => Some(DSPRecipe::SprayCoater),
            110 => Some(DSPRecipe::Fractionator),
            111 => Some(DSPRecipe::OrbitalCollector),
            113 => Some(DSPRecipe::MiniFusionPowerPlant),
            114 => Some(DSPRecipe::StorageTank),
            116 => Some(DSPRecipe::PlaneSmelter),
            117 => Some(DSPRecipe::TrafficMonitor),
            118 => Some(DSPRecipe::GeothermalPowerStation),
            119 => Some(DSPRecipe::AdvancedMiningMachine),
            120 => Some(DSPRecipe::AutomaticPiler),
            _ => None,
        };
        match found {
            Some(x) => {
                proof {
                    Self::lemma_of_id(x);
                }
                Ok(x)
            },
            None => {
                assert forall|x: Self| x.id() != n by {}
                Err(Error::UnknownIdentifier)
            },
        }
    }

    /// The name of the recipe.
    pub fn name(self) -> (r: &'static str)
        ensures
            r@ == self.name_spec(),
    {
        match self {
            DSPRecipe::Gear => "Gear",
            DSPRecipe::MagneticCoil => "MagneticCoil",
            DSPRecipe::Prism => "Prism",
            DSPRecipe::PlasmaExciter => "PlasmaExciter",
            DSPRecipe::HydrogenFuelRod => "HydrogenFuelRod",
            DSPRecipe::Thruster => "Thruster",
            DSPRecipe::ReinforcedThruster => "ReinforcedThruster",
            DSPRecipe::TitaniumCrystal => "TitaniumCrystal",
            DSPRecipe::CasimirCrystal => "CasimirCrystal",
            DSPRecipe::CasimirCrystalAdvanced => "CasimirCrystalAdvanced",
            DSPRecipe::TitaniumGlass => "TitaniumGlass",
            DSPRecipe::ParticleBroadband => "ParticleBroadband",
            DSPRecipe::PlaneFilter => "PlaneFilter",
            DSPRecipe::DeuteronFuelRod => "DeuteronFuelRod",
            DSPRecipe::AnnihilationConstraintSphere => "AnnihilationConstraintSphere",
            DSPRecipe::AntimatterFuelRod => "AntimatterFuelRod",
            DSPRecipe::CircuitBoard => "CircuitBoard",
            DSPRecipe::Processor => "Processor",
            DSPRecipe::QuantumChip => "QuantumChip",
            DSPRecipe::MicrocrystallineComponent => "MicrocrystallineComponent",
            DSPRecipe::OrganicCrystalOriginal => "OrganicCrystalOriginal",
            DSPRecipe::CrystalSiliconAdvanced => "CrystalSiliconAdvanced",
            DSPRecipe::PhotonCombiner => "PhotonCombiner",
            DSPRecipe::PhotonCombinerAdvanced => "PhotonCombinerAdvanced",
            DSPRecipe::SolarSail => "SolarSail",
            DSPRecipe::SpaceWarper => "SpaceWarper",
            DSPRecipe::SpaceWarperAdvanced => "SpaceWarperAdvanced",
            DSPRecipe::FrameMaterial => "FrameMaterial",
            DSPRecipe::DysonSphereComponent => "DysonSphereComponent",
            DSPRecipe::SmallCarrierRocket => "SmallCarrierRocket",
            DSPRecipe::LogisticsDrone => "LogisticsDrone",
            DSPRecipe::LogisticsVessel => "LogisticsVessel",
            DSPRecipe::ElectricMotor => "ElectricMotor",
            DSPRecipe::ElectromagneticTurbine => "ElectromagneticTurbine",
            DSPRecipe::ParticleContainer => "ParticleContainer",
            DSPRecipe::ParticleContainerAdvanced => "ParticleContainerAdvanced",
            DSPRecipe::GravitonLens => "GravitonLens",
            DSPRecipe::SuperMagneticRing => "SuperMagneticRing",
            DSPRecipe::ProliferatorMkI => "ProliferatorMkI",
            DSPRecipe::ProliferatorMkII => "ProliferatorMkII",
            DSPRecipe::ProliferatorMkIII => "ProliferatorMkIII",
            DSPRecipe::Foundation => "Foundation",
            DSPRecipe::Plastic => "Plastic",
            DSPRecipe::SulfuricAcid => "SulfuricAcid",
            DSPRecipe::OrganicCrystal => "OrganicCrystal",
            DSPRecipe::Graphene => "Graphene",
            DSPRecipe::GrapheneAdvanced => "GrapheneAdvanced",
            DSPRecipe::CarbonNanotube => "CarbonNanotube",
            DSPRecipe::CarbonNanotubeAdvanced => "CarbonNanotubeAdvanced",
            DSPRecipe::DeuteriumFractionation => "DeuteriumFractionation",
            DSPRecipe::Deuterium => "Deuterium",
            DSPRecipe::MassEnergyStorage => "MassEnergyStorage",
            DSPRecipe::StrangeMatter => "StrangeMatter",
            DSPRecipe::PlasmaRefining => "PlasmaRefining",
            DSPRecipe::XRayCracking => "XRayCracking",
            DSPRecipe::ElectromagneticMatrix => "ElectromagneticMatrix",
            DSPRecipe::EnergyMatrix => "EnergyMatrix",
            DSPRecipe::StructureMatrix => "StructureMatrix",
            DSPRecipe::InformationMatrix => "InformationMatrix",
            DSPRecipe::GravityMatrix => "GravityMatrix",
            DSPRecipe::UniverseMatrix => "UniverseMatrix",
            DSPRecipe::IronIngot => "IronIngot",
            DSPRecipe::Magnet => "Magnet",
            DSPRecipe::CopperIngot => "CopperIngot",
            DSPRecipe::StoneBrick => "StoneBrick",
            DSPRecipe::EnergeticGraphite => "EnergeticGraphite",
            DSPRecipe::SiliconOre => "SiliconOre",
            DSPRecipe::CrystalSilicon => "CrystalSilicon",
            DSPRecipe::Glass => "Glass",
            DSPRecipe::HighPuritySilicon => "HighPuritySilicon",
            DSPRecipe::Diamond => "Diamond",
            DSPRecipe::DiamondAdvanced => "DiamondAdvanced",
            DSPRecipe::Steel => "Steel",
            DSPRecipe::TitaniumIngot => "TitaniumIngot",
            DSPRecipe::TitaniumAlloy => "TitaniumAlloy",
            DSPRecipe::WindTurbine => "WindTurbine",
            DSPRecipe::TeslaTower => "TeslaTower",
            DSPRecipe::MatrixLab => "MatrixLab",
            DSPRecipe::WirelessPowerTower => "WirelessPowerTower",
            DSPRecipe::OilExtractor => "OilExtractor",
            DSPRecipe::OilRefinery => "OilRefinery",
            DSPRecipe::ChemicalPlant => "ChemicalPlant",
            DSPRecipe::MiniatureParticleCollider => "MiniatureParticleCollider",
            DSPRecipe::ArtificialStar => "ArtificialStar",
            DSPRecipe::AssemblingMachineMkI => "AssemblingMachineMkI",
            DSPRecipe::AssemblingMachineMkII => "AssemblingMachineMkII",
            DSPRecipe::AssemblingMachineMkIII => "AssemblingMachineMkIII",
            DSPRecipe::MiningMachine => "MiningMachine",
            DSPRecipe::WaterPump => "WaterPump",
            DSPRecipe::ArcSmelter => "ArcSmelter",
            DSPRecipe::ThermalPowerPlant => "ThermalPowerPlant",
            DSPRecipe::SolarPanel => "SolarPanel",
            DSPRecipe::EMRailEjector => "EMRailEjector",
            DSPRecipe::RayReceiver => "RayReceiver",
            DSPRecipe::SatelliteSubstation => "SatelliteSubstation",
            DSPRecipe::Accumulator => "Accumulator",
            DSPRecipe::EnergyExchanger => "EnergyExchanger",
            DSPRecipe::VerticalLaunchingSilo => "VerticalLaunchingSilo",
            DSPRecipe::ConveyorBeltMKI => "ConveyorBeltMKI",
            DSPRecipe::ConveyorBeltMKII => "ConveyorBeltMKII",
            DSPRecipe::ConveyorBeltMKIII => "ConveyorBeltMKIII",
            DSPRecipe::SorterMKI => "SorterMKI",
            DSPRecipe::SorterMKII => "SorterMKII",
            DSPRecipe::SorterMKIII => "SorterMKIII",
            DSPRecipe::StorageMKI => "StorageMKI",
            DSPRecipe::StorageMKII => "StorageMKII",
            DSPRecipe::Splitter => "Splitter",
            DSPRecipe::PlanetaryLogisticsStation => "PlanetaryLogisticsStation",
            DSPRecipe::InterstellarLogisticsStation => "InterstellarLogisticsStation",
            DSPRecipe::SprayCoater => "SprayCoater",
            DSPRecipe::Fractionator => "Fractionator",
            DSPRecipe::OrbitalCollector => "OrbitalCollector",
            DSPRecipe::MiniFusionPowerPlant => "MiniFusionPowerPlant",
            DSPRecipe::StorageTank => "StorageTank",
            DSPRecipe::PlaneSmelter => "PlaneSmelter",
            DSPRecipe::TrafficMonitor => "TrafficMonitor",
            DSPRecipe::GeothermalPowerStation => "GeothermalPowerStation",
            DSPRecipe::AdvancedMiningMachine => "AdvancedMiningMachine",
            DSPRecipe::AutomaticPiler => "AutomaticPiler",
        }
    }

    /// The recipe with the name `s`, where the catalog holds one.
    pub fn from_name(s: &str) -> (r: Option<Self>)
        ensures
            r == Self::of_name(s@),
            match r {
                Some(x) => x.name_spec() == s@,
                None => forall|x: Self| x.name_spec() != s@,
            },
    {
        let r = Self::find_name(s);
        proof {
            if let Some(x) = r {
                Self::lemma_of_name(x);
            }
        }
        r
    }

    /// Looks a name up in the catalog.
    fn find_name(s: &str) -> (r: Option<Self>)
        ensures
            match r {
                Some(x) => x.name_spec() == s@,
                None => forall|x: Self| x.name_spec() != s@,
            },
    {
        if same_text(s, "Gear") {
            Some(DSPRecipe::Gear)
        } else if same_text(s, "MagneticCoil") {
            Some(DSPRecipe::MagneticCoil)
        } else if same_text(s, "Prism") {
            Some(DSPRecipe::Prism)
        } else if same_text(s, "PlasmaExciter") {
            Some(DSPRecipe::PlasmaExciter)
        } else if same_text(s, "HydrogenFuelRod") {
            Some(DSPRecipe::HydrogenFuelRod)
        } else if same_text(s, "Thruster") {
            Some(DSPRecipe::Thruster)
        } else if same_text(s, "ReinforcedThruster") {
            Some(DSPRecipe::ReinforcedThruster)
        } else if same_text(s, "TitaniumCrystal") {
            Some(DSPRecipe::TitaniumCrystal)
        } else if same_text(s, "CasimirCrystal") {
            Some(DSPRecipe::CasimirCrystal)
        } else if same_text(s, "CasimirCrystalAdvanced") {
            Some(DSPRecipe::CasimirCrystalAdvanced)
        } else if same_text(s, "TitaniumGlass") {
            Some(DSPRecipe::TitaniumGlass)
        } else if same_text(s, "ParticleBroadband") {
            Some(DSPRecipe::ParticleBroadband)
        } else if same_text(s, "PlaneFilter") {
            Some(DSPRecipe::PlaneFilter)
        } else if same_text(s, "DeuteronFuelRod") {
            Some(DSPRecipe::DeuteronFuelRod)
        } else if same_text(s, "AnnihilationConstraintSphere") {
            Some(DSPRecipe::AnnihilationConstraintSphere)
        } else if same_text(s, "AntimatterFuelRod") {
            Some(DSPRecipe::AntimatterFuelRod)
        } else if same_text(s, "CircuitBoard") {
            Some(DSPRecipe::CircuitBoard)
        } else if same_text(s, "Processor") {
            Some(DSPRecipe::Processor)
        } else if same_text(s, "QuantumChip") {
            Some(DSPRecipe::QuantumChip)
        } else if same_text(s, "MicrocrystallineComponent") {
            Some(DSPRecipe::MicrocrystallineComponent)
        } else if same_text(s, "OrganicCrystalOriginal") {
            Some(DSPRecipe::OrganicCrystalOriginal)
        } else if same_text(s, "CrystalSiliconAdvanced") {
            Some(DSPRecipe::CrystalSiliconAdvanced)
        } else if same_text(s, "PhotonCombiner") {
            Some(DSPRecipe::PhotonCombiner)
        } else if same_text(s, "PhotonCombinerAdvanced") {
            Some(DSPRecipe::PhotonCombinerAdvanced)
        } else if same_text(s, "SolarSail") {
            Some(DSPRecipe::SolarSail)
        } else if same_text(s, "SpaceWarper") {
            Some(DSPRecipe::SpaceWarper)
        } else if same_text(s, "SpaceWarperAdvanced") {
            Some(DSPRecipe::SpaceWarperAdvanced)
        } else if same_text(s, "FrameMaterial") {
            Some(DSPRecipe::FrameMaterial)
        } else if same_text(s, "DysonSphereComponent") {
            Some(DSPRecipe::DysonSphereComponent)
        } else if same_text(s, "SmallCarrierRocket") {
            Some(DSPRecipe::SmallCarrierRocket)
        } else if same_text(s, "LogisticsDrone") {
            Some(DSPRecipe::LogisticsDrone)
        } else if same_text(s, "LogisticsVessel") {
            Some(DSPRecipe::LogisticsVessel)
        } else if same_text(s, "ElectricMotor") {
            Some(DSPRecipe::ElectricMotor)
        } else if same_text(s, "ElectromagneticTurbine") {
            Some(DSPRecipe::ElectromagneticTurbine)
        } else if same_text(s, "ParticleContainer") {
            Some(DSPRecipe::ParticleContainer)
        } else if same_text(s, "ParticleContainerAdvanced") {
            Some(DSPRecipe::ParticleContainerAdvanced)
        } else if same_text(s, "GravitonLens") {
            Some(DSPRecipe::GravitonLens)
        } else if same_text(s, "SuperMagneticRing") {
            Some(DSPRecipe::SuperMagneticRing)
        } else if same_text(s, "ProliferatorMkI") {
            Some(DSPRecipe::ProliferatorMkI)
        } else if same_text(s, "ProliferatorMkII") {
            Some(DSPRecipe::ProliferatorMkII)
        } else if same_text(s, "ProliferatorMkIII") {
            Some(DSPRecipe::ProliferatorMkIII)
        } else if same_text(s, "Foundation") {
            Some(DSPRecipe::Foundation)
        } else if same_text(s, "Plastic") {
            Some(DSPRecipe::Plastic)
        } else if same_text(s, "SulfuricAcid") {
            Some(DSPRecipe::SulfuricAcid)
        } else if same_text(s, "OrganicCrystal") {
            Some(DSPRecipe::OrganicCrystal)
        } else if same_text(s, "Graphene") {
            Some(DSPRecipe::Graphene)
        } else if same_text(s, "GrapheneAdvanced") {
            Some(DSPRecipe::GrapheneAdvanced)
        } else if same_text(s, "CarbonNanotube") {
            Some(DSPRecipe::CarbonNanotube)
        } else if same_text(s, "CarbonNanotubeAdvanced") {
            Some(DSPRecipe::CarbonNanotubeAdvanced)
        } else if same_text(s, "DeuteriumFractionation") {
            Some(DSPRecipe::DeuteriumFractionation)
        } else if same_text(s, "Deuterium") {
            Some(DSPRecipe::Deuterium)
        } else if same_text(s, "MassEnergyStorage") {
            Some(DSPRecipe::MassEnergyStorage)
        } else if same_text(s, "StrangeMatter") {
            Some(DSPRecipe::StrangeMatter)
        } else if same_text(s, "PlasmaRefining") {
            Some(DSPRecipe::PlasmaRefining)
        } else if same_text(s, "XRayCracking") {
            Some(DSPRecipe::XRayCracking)
        } else if same_text(s, "ElectromagneticMatrix") {
            Some(DSPRecipe::ElectromagneticMatrix)
        } else if same_text(s, "EnergyMatrix") {
            Some(DSPRecipe::EnergyMatrix)
        } else if same_text(s, "StructureMatrix") {
            Some(DSPRecipe::StructureMatrix)
        } else if same_text(s, "InformationMatrix") {
            Some(DSPRecipe::InformationMatrix)
        } else if same_text(s, "GravityMatrix") {
            Some(DSPRecipe::GravityMatrix)
        } else if same_text(s, "UniverseMatrix") {
            Some(DSPRecipe::UniverseMatrix)
        } else if same_text(s, "IronIngot") {
            Some(DSPRecipe::IronIngot)
        } else if same_text(s, "Magnet") {
            Some(DSPRecipe::Magnet)
        } else if same_text(s, "CopperIngot") {
            Some(DSPRecipe::CopperIngot)
        } else if same_text(s, "StoneBrick") {
            Some(DSPRecipe::StoneBrick)
        } else if same_text(s, "EnergeticGraphite") {
            Some(DSPRecipe::EnergeticGraphite)
        } else if same_text(s, "SiliconOre") {
            Some(DSPRecipe::SiliconOre)
        } else if same_text(s, "CrystalSilicon") {
            Some(DSPRecipe::CrystalSilicon)
        } else if same_text(s, "Glass") {
            Some(DSPRecipe::Glass)
        } else if same_text(s, "HighPuritySilicon") {
            Some(DSPRecipe::HighPuritySilicon)
        } else if same_text(s, "Diamond") {
            Some(DSPRecipe::Diamond)
        } else if same_text(s, "DiamondAdvanced") {
            Some(DSPRecipe::DiamondAdvanced)
        } else if same_text(s, "Steel") {
            Some(DSPRecipe::Steel)
        } else if same_text(s, "TitaniumIngot") {
            Some(DSPRecipe::TitaniumIngot)
        } else if same_text(s, "TitaniumAlloy") {
            Some(DSPRecipe::TitaniumAlloy)
        } else if same_text(s, "WindTurbine") {
            Some(DSPRecipe::WindTurbine)
        } else if same_text(s, "TeslaTower") {
            Some(DSPRecipe::TeslaTower)
        } else if same_text(s, "MatrixLab") {
            Some(DSPRecipe::MatrixLab)
        } else if same_text(s, "WirelessPowerTower") {
            Some(DSPRecipe::WirelessPowerTower)
        } else if same_text(s, "OilExtractor") {
            Some(DSPRecipe::OilExtractor)
        } else if same_text(s, "OilRefinery") {
            Some(DSPRecipe::OilRefinery)
        } else if same_text(s, "ChemicalPlant") {
            Some(DSPRecipe::ChemicalPlant)
        } else if same_text(s, "MiniatureParticleCollider") {
            Some(DSPRecipe::MiniatureParticleCollider)
        } else if same_text(s, "ArtificialStar") {
            Some(DSPRecipe::ArtificialStar)
        } else if same_text(s, "AssemblingMachineMkI") {
            Some(DSPRecipe::AssemblingMachineMkI)
        } else if same_text(s, "AssemblingMachineMkII") {
            Some(DSPRecipe::AssemblingMachineMkII)
        } else if same_text(s, "AssemblingMachineMkIII") {
            Some(DSPRecipe::AssemblingMachineMkIII)
        } else if same_text(s, "MiningMachine") {
            Some(DSPRecipe::MiningMachine)
        } else if same_text(s, "WaterPump") {
            Some(DSPRecipe::WaterPump)
        } else if same_text(s, "ArcSmelter") {
            Some(DSPRecipe::ArcSmelter)
        } else if same_text(s, "ThermalPowerPlant") {
            Some(DSPRecipe::ThermalPowerPlant)
        } else if same_text(s, "SolarPanel") {
            Some(DSPRecipe::SolarPanel)
        } else if same_text(s, "EMRailEjector") {
            Some(DSPRecipe::EMRailEjector)
        } else if same_text(s, "RayReceiver") {
            Some(DSPRecipe::RayReceiver)
        } else if same_text(s, "SatelliteSubstation") {
            Some(DSPRecipe::SatelliteSubstation)
        } else if same_text(s, "Accumulator") {
            Some(DSPRecipe::Accumulator)
        } else if same_text(s, "EnergyExchanger") {
            Some(DSPRecipe::EnergyExchanger)
        } else if same_text(s, "VerticalLaunchingSilo") {
            Some(DSPRecipe::VerticalLaunchingSilo)
        } else if same_text(s, "ConveyorBeltMKI") {
            Some(DSPRecipe::ConveyorBeltMKI)
        } else if same_text(s, "ConveyorBeltMKII") {
            Some(DSPRecipe::ConveyorBeltMKII)
        } else if same_text(s, "ConveyorBeltMKIII") {
            Some(DSPRecipe::ConveyorBeltMKIII)
        } else if same_text(s, "SorterMKI") {
            Some(DSPRecipe::SorterMKI)
        } else if same_text(s, "SorterMKII") {
            Some(DSPRecipe::SorterMKII)
        } else if same_text(s, "SorterMKIII") {
            Some(DSPRecipe::SorterMKIII)
        } else if same_text(s, "StorageMKI") {
            Some(DSPRecipe::StorageMKI)
        } else if same_text(s, "StorageMKII") {
            Some(DSPRecipe::StorageMKII)
        } else if same_text(s, "Splitter") {
            Some(DSPRecipe::Splitter)
        } else if same_text(s, "PlanetaryLogisticsStation") {
            Some(DSPRecipe::PlanetaryLogisticsStation)
        } else if same_text(s, "InterstellarLogisticsStation") {
            Some(DSPRecipe::InterstellarLogisticsStation)
        } else if same_text(s, "SprayCoater") {
            Some(DSPRecipe::SprayCoater)
        } else if same_text(s, "Fractionator") {
            Some(DSPRecipe::Fractionator)
        } else if same_text(s, "OrbitalCollector") {
            Some(DSPRecipe::OrbitalCollector)
        } else if same_text(s, "MiniFusionPowerPlant") {
            Some(DSPRecipe::MiniFusionPowerPlant)
        } else if same_text(s, "StorageTank") {
            Some(DSPRecipe::StorageTank)
        } else if same_text(s, "PlaneSmelter") {
            Some(DSPRecipe::PlaneSmelter)
        } else if same_text(s, "TrafficMonitor") {
            Some(DSPRecipe::TrafficMonitor)
        } else if same_text(s, "GeothermalPowerStation") {
            Some(DSPRecipe::GeothermalPowerStation)
        } else if same_text(s, "AdvancedMiningMachine") {
            Some(DSPRecipe::AdvancedMiningMachine)
        } else if same_text(s, "AutomaticPiler") {
            Some(DSPRecipe::AutomaticPiler)
        } else {
            assert forall|x: Self| x.name_spec() != s@ by {}
            None
        }
    }

    /// The recipe that is named as an item is: the plainest way to make the
    /// item, where there is one.
    pub open spec fn of_item(item: DSPItem) -> Option<Self> {
        Self::of_name(item.name_spec())
    }

    /// The recipe that is named as the item is: the plainest way to make it.
    pub fn for_item(item: &DSPItem) -> (r: Option<Self>)
        ensures
            r == Self::of_item(*item),
    {
        Self::from_name(item.name())
    }
}

/// The models of the buildings that come in several tiers.
#[derive(Clone, Copy, Debug, PartialEq, Eq, Hash, Structural)]
pub enum BPModel {
    ConveyorBeltMKI,
    ConveyorBeltMKII,
    ConveyorBeltMKIII,
    SorterMKI,
    SorterMKII,
    SorterMKIII,
    AssemblingMachineMkI,
    AssemblingMachineMkII,
    AssemblingMachineMkIII,
    ArcSmelter,
    PlaneSmelter,
}

impl BPModel {
    /// The number that the game gives the model.
    pub open spec fn id(self) -> u16 {
        match self {
            BPModel::ConveyorBeltMKI => 35,
            BPModel::ConveyorBeltMKII => 36,
            BPModel::ConveyorBeltMKIII => 37,
            BPModel::SorterMKI => 41,
            BPModel::SorterMKII => 42,
            BPModel::SorterMKIII => 43,
            BPModel::AssemblingMachineMkI => 65,
            BPModel::AssemblingMachineMkII => 66,
            BPModel::AssemblingMachineMkIII => 67,
            BPModel::ArcSmelter => 62,
            BPModel::PlaneSmelter => 194,
        }
    }

    /// The model that draws a building, where the building has one here.
    pub open spec fn of_building(i: DSPItem) -> Option<Self> {
        match i {
            DSPItem::ConveyorBeltMKI => Some(BPModel::ConveyorBeltMKI),
            DSPItem::ConveyorBeltMKII => Some(BPModel::ConveyorBeltMKII),
            DSPItem::ConveyorBeltMKIII => Some(BPModel::ConveyorBeltMKIII),
            DSPItem::SorterMKI => Some(BPModel::SorterMKI),
            DSPItem::SorterMKII => Some(BPModel::SorterMKII),
            DSPItem::SorterMKIII => Some(BPModel::SorterMKIII),
            DSPItem::AssemblingMachineMkI => Some(BPModel::AssemblingMachineMkI),
            DSPItem::AssemblingMachineMkII => Some(BPModel::AssemblingMachineMkII),
            DSPItem::AssemblingMachineMkIII => Some(BPModel::AssemblingMachineMkIII),
            DSPItem::ArcSmelter => Some(BPModel::ArcSmelter),
            DSPItem::PlaneSmelter => Some(BPModel::PlaneSmelter),
            _ => None,
        }
    }

    /// The number of the model.
    pub fn to_u16(self) -> (r: u16)
        ensures
            r == self.id(),
    {
        match self {
            BPModel::ConveyorBeltMKI => 35,
            BPModel::ConveyorBeltMKII => 36,
            BPModel::ConveyorBeltMKIII => 37,
            BPModel::SorterMKI => 41,
            BPModel::SorterMKII => 42,
            BPModel::SorterMKIII => 43,
            BPModel::AssemblingMachineMkI => 65,
            BPModel::AssemblingMachineMkII => 66,
            BPModel::AssemblingMachineMkIII => 67,
            BPModel::ArcSmelter => 62,
            BPModel::PlaneSmelter => 194,
        }
    }

    /// The model with the number `n`. Fails where this library knows none.
    pub fn try_from(n: u16) -> (r: Result<Self, Error>)
        ensures
            match r {
                Ok(x) => x.id() == n,
                Err(e) => e == Error::UnknownIdentifier && forall|x: Self| x.id() != n,
            },
    {
        match n {
            35 => Ok(BPModel::ConveyorBeltMKI),
            36 => Ok(BPModel::ConveyorBeltMKII),
            37 => Ok(BPModel::ConveyorBeltMKIII),
            41 => Ok(BPModel::SorterMKI),
            42 => Ok(BPModel::SorterMKII),
            43 => Ok(BPModel::SorterMKIII),
            65 => Ok(BPModel::AssemblingMachineMkI),
            66 => Ok(BPModel::AssemblingMachineMkII),
            67 => Ok(BPModel::AssemblingMachineMkIII),
            62 => Ok(BPModel::ArcSmelter),
            194 => Ok(BPModel::PlaneSmelter),
            _ => {
                assert forall|x: Self| x.id() != n by {}
                Err(Error::UnknownIdentifier)
            },
        }
    }

    /// The model that draws a building. Fails for a building that has no
    /// model here.
    pub fn from_building(i: DSPItem) -> (r: Result<Self, Error>)
        ensures
            match r {
                Ok(m) => Self::of_building(i) == Some(m),
                Err(e) => Self::of_building(i) is None && e == Error::MissingModel,
            },
    {
        match i {
            DSPItem::ConveyorBeltMKI => Ok(BPModel::ConveyorBeltMKI),
            DSPItem::ConveyorBeltMKII => Ok(BPModel::ConveyorBeltMKII),
            DSPItem::ConveyorBeltMKIII => Ok(BPModel::ConveyorBeltMKIII),
            DSPItem::SorterMKI => Ok(BPModel::SorterMKI),
            DSPItem::SorterMKII => Ok(BPModel::SorterMKII),
            DSPItem::SorterMKIII => Ok(BPModel::SorterMKIII),
            DSPItem::AssemblingMachineMkI => Ok(BPModel::AssemblingMachineMkI),
            DSPItem::AssemblingMachineMkII => Ok(BPModel::AssemblingMachineMkII),
            DSPItem::AssemblingMachineMkIII => Ok(BPModel::AssemblingMachineMkIII),
            DSPItem::ArcSmelter => Ok(BPModel::ArcSmelter),
            DSPItem::PlaneSmelter => Ok(BPModel::PlaneSmelter),
            _ => Err(Error::MissingModel),
        }
    }
}

/// What an icon number stands for.
///
/// Icon numbers share one range of 32-bit numbers: signals come first, then
/// items, recipes and technologies.
#[derive(Clone, Copy, Debug, PartialEq, Eq, Hash, Structural)]
pub enum DSPIcon {
    /// A signal, with its number.
    Signal(u32),
    /// An item.
    Item(DSPItem),
    /// A recipe.
    Recipe(DSPRecipe),
    /// A technology, with its number.
    Tech(u32),
    /// A number beyond the ranges that are known.
    Unknown(u32),
}

impl DSPIcon {
    /// What the icon number `n` stands for. An item or recipe number that
    /// the catalog does not hold stands for nothing.
    pub open spec fn decode(n: u32) -> Result<Self, Error> {
        if n < 1000 {
            Ok(DSPIcon::Signal(n))
        } else if n < 20000 {
            match DSPItem::of_id(n as u16) {
                Some(i) => Ok(DSPIcon::Item(i)),
                None => Err(Error::UnknownIdentifier),
            }
        } else if n < 40000 {
            match DSPRecipe::of_id((n - 20000) as u16) {
                Some(r) => Ok(DSPIcon::Recipe(r)),
                None => Err(Error::UnknownIdentifier),
            }
        } else if n < 60000 {
            Ok(DSPIcon::Tech((n - 40000) as u32))
        } else {
            Ok(DSPIcon::Unknown(n))
        }
    }

    /// The icon number of an icon.
    pub open spec fn number(self) -> u32 {
        match self {
            DSPIcon::Signal(v) => v,
            DSPIcon::Item(i) => i.id() as u32,
            DSPIcon::Recipe(r) => (r.id() + 20000) as u32,
            DSPIcon::Tech(v) => v.wrapping_add(40000),
            DSPIcon::Unknown(v) => v,
        }
    }

    /// What the icon number `n` stands for.
    pub fn try_from(n: u32) -> (r: Result<Self, Error>)
        ensures
            r == Self::decode(n),
    {
        if n < 1000 {
            Ok(DSPIcon::Signal(n))
        } else if n < 20000 {
            match DSPItem::try_from(n as u16) {
                Ok(i) => Ok(DSPIcon::Item(i)),
                Err(_) => Err(Error::UnknownIdentifier),
            }
        } else if n < 40000 {
            match DSPRecipe::try_from((n - 20000) as u16) {
                Ok(r) => Ok(DSPIcon::Recipe(r)),
                Err(_) => Err(Error::UnknownIdentifier),
            }
        } else if n < 60000 {
            Ok(DSPIcon::Tech(n - 40000))
        } else {
            Ok(DSPIcon::Unknown(n))
        }
    }

    /// The icon number of the icon.
    pub fn to_u32(self) -> (r: u32)
        ensures
            r == self.number(),
    {
        match self {
            DSPIcon::Signal(v) => v,
            DSPIcon::Item(i) => i.to_u16() as u32,
            DSPIcon::Recipe(r) => r.to_u16() as u32 + 20000,
            DSPIcon::Tech(v) => v.wrapping_add(40000),
            DSPIcon::Unknown(v) => v,
        }
    }

    /// An icon number that stands for something is the number of what it
    /// stands for.
    pub proof fn lemma_number_of_decoded(n: u32, icon: Self)
        requires
            Self::decode(n) == Ok::<Self, Error>(icon),
        ensures
            icon.number() == n,
    {
    }

    /// The five ranges of icon numbers, and what the numbers in each stand
    /// for.
    pub proof fn lemma_ranges(n: u32)
        ensures
            n < 1000 ==> Self::decode(n) == Ok::<Self, Error>(DSPIcon::Signal(n)),
            1000 <= n < 20000 ==> (Self::decode(n) matches Ok(DSPIcon::Item(i)) && i.id() == n)
                || Self::decode(n) == Err::<Self, Error>(Error::UnknownIdentifier),
            20000 <= n < 40000 ==> (Self::decode(n) matches Ok(DSPIcon::Recipe(r)) && r.id() == n
                - 20000) || Self::decode(n) == Err::<Self, Error>(Error::UnknownIdentifier),
            40000 <= n < 60000 ==> Self::decode(n) == Ok::<Self, Error>(
                DSPIcon::Tech((n - 40000) as u32),
            ),
            60000 <= n ==> Self::decode(n) == Ok::<Self, Error>(DSPIcon::Unknown(n)),
    {
    }
}

impl From<DSPIcon> for u32 {
    fn from(value: DSPIcon) -> (r: u32) {
        value.to_u32()
    }
}

impl FromSpecImpl<DSPIcon> for u32 {
    open spec fn obeys_from_spec() -> bool {
        true
    }

    open spec fn from_spec(value: DSPIcon) -> u32 {
        value.number()
    }
}

/// The kinds of building that come in several tiers.
#[derive(Clone, Copy, Debug, PartialEq, Eq, Structural)]
pub enum BuildingClass {
    Assembler,
    Smelter,
    Belt,
    Sorter,
    /// Every other item.
    Other,
}

impl BuildingClass {
    /// The class of an item.
    pub open spec fn of(i: DSPItem) -> Self {
        match i {
            DSPItem::AssemblingMachineMkI
            | DSPItem::AssemblingMachineMkII
            | DSPItem::AssemblingMachineMkIII => BuildingClass::Assembler,
            DSPItem::SorterMKI | DSPItem::SorterMKII | DSPItem::SorterMKIII => BuildingClass::Sorter,
            DSPItem::ConveyorBeltMKI
            | DSPItem::ConveyorBeltMKII
            | DSPItem::ConveyorBeltMKIII => BuildingClass::Belt,
            DSPItem::ArcSmelter | DSPItem::PlaneSmelter => BuildingClass::Smelter,
            _ => BuildingClass::Other,
        }
    }

    /// Whether one building may stand in for another: both are of one class,
    /// and of a class that has tiers.
    pub open spec fn valid_replacement(i: DSPItem, o: DSPItem) -> bool {
        Self::of(i) == Self::of(o) && Self::of(i) != BuildingClass::Other
    }

    /// The class of an item.
    pub fn class_of(i: DSPItem) -> (r: Self)
        ensures
            r == Self::of(i),
    {
        match i {
            DSPItem::AssemblingMachineMkI
            | DSPItem::AssemblingMachineMkII
            | DSPItem::AssemblingMachineMkIII => BuildingClass::Assembler,
            DSPItem::SorterMKI | DSPItem::SorterMKII | DSPItem::SorterMKIII => BuildingClass::Sorter,
            DSPItem::ConveyorBeltMKI
            | DSPItem::ConveyorBeltMKII
            | DSPItem::ConveyorBeltMKIII => BuildingClass::Belt,
            DSPItem::ArcSmelter | DSPItem::PlaneSmelter => BuildingClass::Smelter,
            _ => BuildingClass::Other,
        }
    }

    /// Whether the building `o` may stand in for the building `i`.
    pub fn replacement_is_valid(i: DSPItem, o: DSPItem) -> (r: bool)
        ensures
            r == Self::valid_replacement(i, o),
    {
        let a = Self::class_of(i);
        let b = Self::class_of(o);
        a == b && a != BuildingClass::Other
    }

    /// No building of one class may stand in for a building of another
    /// class: an assembler, say, is never replaced by a belt.
    pub proof fn lemma_classes_do_not_mix(i: DSPItem, o: DSPItem)
        requires
            Self::of(i) != Self::of(o),
        ensures
            !Self::valid_replacement(i, o),
    {
    }
}

impl From<DSPItem> for BuildingClass {
    fn from(i: DSPItem) -> (r: BuildingClass) {
        BuildingClass::class_of(i)
    }
}

impl FromSpecImpl<DSPItem> for BuildingClass {
    open spec fn obeys_from_spec() -> bool {
        true
    }

    open spec fn from_spec(i: DSPItem) -> BuildingClass {
        BuildingClass::of(i)
    }
}

impl From<DSPItem> for u16 {
    fn from(value: DSPItem) -> (r: u16) {
        value.to_u16()
    }
}

impl FromSpecImpl<DSPItem> for u16 {
    open spec fn obeys_from_spec() -> bool {
        true
    }

    open spec fn from_spec(value: DSPItem) -> u16 {
        value.id()
    }
}

impl From<DSPRecipe> for u16 {
    fn from(value: DSPRecipe) -> (r: u16) {
        value.to_u16()
    }
}

impl FromSpecImpl<DSPRecipe> for u16 {
    open spec fn obeys_from_spec() -> bool {
        true
    }

    open spec fn from_spec(value: DSPRecipe) -> u16 {
        value.id()
    }
}

impl From<BPModel> for u16 {
    fn from(value: BPModel) -> (r: u16) {
        value.to_u16()
    }
}

impl FromSpecImpl<BPModel> for u16 {
    open spec fn obeys_from_spec() -> bool {
        true
    }

    open spec fn from_spec(value: BPModel) -> u16 {
        value.id()
    }
}

} // verus!
