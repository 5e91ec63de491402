use vstd::prelude::*;

verus! {

/// The thematic role of a city object: what kind of thing a surface or a
/// space is, independent of its geometry.
#[derive(Clone, Copy, Debug, PartialEq, Eq, Hash, Structural)]
pub enum CityObjectClass {
    AuxiliaryTrafficArea,
    AuxiliaryTrafficSpace,
    Bridge,
    BridgeConstructiveElement,
    BridgeFurniture,
    BridgeInstallation,
    BridgePart,
    BridgeRoom,
    Building,
    BuildingConstructiveElement,
    BuildingFurniture,
    BuildingInstallation,
    BuildingPart,
    BuildingRoom,
    BuildingUnit,
    CeilingSurface,
    CityFurniture,
    CityObjectGroup,
    ClearanceSpace,
    Door,
    DoorSurface,
    FloorSurface,
    GenericLogicalSpace,
    GenericOccupiedSpace,
    GenericThematicSurface,
    GenericUnoccupiedSpace,
    GroundSurface,
    Hole,
    HoleSurface,
    HollowSpace,
    InteriorWallSurface,
    Intersection,
    Marking,
    OtherConstruction,
    OuterCeilingSurface,
    OuterFloorSurface,
    PlantCover,
    Railway,
    Road,
    RoofSurface,
    Section,
    SolitaryVegetationObject,
    Square,
    Story,
    Track,
    TrafficArea,
    TrafficSpace,
    Tunnel,
    TunnelConstructiveElement,
    TunnelFurniture,
    TunnelInstallation,
    TunnelPart,
    WallSurface,
    WaterBody,
    WaterGroundSurface,
    WaterSurface,
    Waterway,
    Window,
    WindowSurface,
}

/// The name under which a class appears in output names and thematic labels:
/// the class's own identifier, letter for letter.
pub open spec fn class_name(class: CityObjectClass) -> Seq<char> {
    match class {
        CityObjectClass::AuxiliaryTrafficArea => "AuxiliaryTrafficArea"@,
        CityObjectClass::AuxiliaryTrafficSpace => "AuxiliaryTrafficSpace"@,
        CityObjectClass::Bridge => "Bridge"@,
        CityObjectClass::BridgeConstructiveElement => "BridgeConstructiveElement"@,
        CityObjectClass::BridgeFurniture => "BridgeFurniture"@,
        CityObjectClass::BridgeInstallation => "BridgeInstallation"@,
        CityObjectClass::BridgePart => "BridgePart"@,
        CityObjectClass::BridgeRoom => "BridgeRoom"@,
        CityObjectClass::Building => "Building"@,
        CityObjectClass::BuildingConstructiveElement => "BuildingConstructiveElement"@,
        CityObjectClass::BuildingFurniture => "BuildingFurniture"@,
        CityObjectClass::BuildingInstallation => "BuildingInstallation"@,
        CityObjectClass::BuildingPart => "BuildingPart"@,
        CityObjectClass::BuildingRoom => "BuildingRoom"@,
        CityObjectClass::BuildingUnit => "BuildingUnit"@,
        CityObjectClass::CeilingSurface => "CeilingSurface"@,
        CityObjectClass::CityFurniture => "CityFurniture"@,
        CityObjectClass::CityObjectGroup => "CityObjectGroup"@,
        CityObjectClass::ClearanceSpace => "ClearanceSpace"@,
        CityObjectClass::Door => "Door"@,
        CityObjectClass::DoorSurface => "DoorSurface"@,
        CityObjectClass::FloorSurface => "FloorSurface"@,
        CityObjectClass::GenericLogicalSpace => "GenericLogicalSpace"@,
        CityObjectClass::GenericOccupiedSpace => "GenericOccupiedSpace"@,
        CityObjectClass::GenericThematicSurface => "GenericThematicSurface"@,
        CityObjectClass::GenericUnoccupiedSpace => "GenericUnoccupiedSpace"@,
        CityObjectClass::GroundSurface => "GroundSurface"@,
        CityObjectClass::Hole => "Hole"@,
        CityObjectClass::HoleSurface => "HoleSurface"@,
        CityObjectClass::HollowSpace => "HollowSpace"@,
        CityObjectClass::InteriorWallSurface => "InteriorWallSurface"@,
        CityObjectClass::Intersection => "Intersection"@,
        CityObjectClass::Marking => "Marking"@,
        CityObjectClass::OtherConstruction => "OtherConstruction"@,
        CityObjectClass::OuterCeilingSurface => "OuterCeilingSurface"@,
        CityObjectClass::OuterFloorSurface => "OuterFloorSurface"@,
        CityObjectClass::PlantCover => "PlantCover"@,
        CityObjectClass::Railway => "Railway"@,
        CityObjectClass::Road => "Road"@,
        CityObjectClass::RoofSurface => "RoofSurface"@,
        CityObjectClass::Section => "Section"@,
        CityObjectClass::SolitaryVegetationObject => "SolitaryVegetationObject"@,
        CityObjectClass::Square => "Square"@,
        CityObjectClass::Story => "Story"@,
        CityObjectClass::Track => "Track"@,
        CityObjectClass::TrafficArea => "TrafficArea"@,
        CityObjectClass::TrafficSpace => "TrafficSpace"@,
        CityObjectClass::Tunnel => "Tunnel"@,
        CityObjectClass::TunnelConstructiveElement => "TunnelConstructiveElement"@,
        CityObjectClass::TunnelFurniture => "TunnelFurniture"@,
        CityObjectClass::TunnelInstallation => "TunnelInstallation"@,
        CityObjectClass::TunnelPart => "TunnelPart"@,
        CityObjectClass::WallSurface => "WallSurface"@,
        CityObjectClass::WaterBody => "WaterBody"@,
        CityObjectClass::WaterGroundSurface => "WaterGroundSurface"@,
        CityObjectClass::WaterSurface => "WaterSurface"@,
        CityObjectClass::Waterway => "Waterway"@,
        CityObjectClass::Window => "Window"@,
        CityObjectClass::WindowSurface => "WindowSurface"@,
    }
}

/// The name of a class as a string slice.
pub fn city_object_class_to_str(class: CityObjectClass) -> (name: &'static str)
    ensures
        name@ == class_name(class),
{
    match class {
        CityObjectClass::AuxiliaryTrafficArea => "AuxiliaryTrafficArea",
        CityObjectClass::AuxiliaryTrafficSpace => "AuxiliaryTrafficSpace",
        CityObjectClass::Bridge => "Bridge",
        CityObjectClass::BridgeConstructiveElement => "BridgeConstructiveElement",
        CityObjectClass::BridgeFurniture => "BridgeFurniture",
        CityObjectClass::BridgeInstallation => "BridgeInstallation",
        CityObjectClass::BridgePart => "BridgePart",
        CityObjectClass::BridgeRoom => "BridgeRoom",
        CityObjectClass::Building => "Building",
        CityObjectClass::BuildingConstructiveElement => "BuildingConstructiveElement",
        CityObjectClass::BuildingFurniture => "BuildingFurniture",
        CityObjectClass::BuildingInstallation => "BuildingInstallation",
        CityObjectClass::BuildingPart => "BuildingPart",
        CityObjectClass::BuildingRoom => "BuildingRoom",
        CityObjectClass::BuildingUnit => "BuildingUnit",
        CityObjectClass::CeilingSurface => "CeilingSurface",
        CityObjectClass::CityFurniture => "CityFurniture",
        CityObjectClass::CityObjectGroup => "CityObjectGroup",
        CityObjectClass::ClearanceSpace => "ClearanceSpace",
        CityObjectClass::Door => "Door",
        CityObjectClass::DoorSurface => "DoorSurface",
        CityObjectClass::FloorSurface => "FloorSurface",
        CityObjectClass::GenericLogicalSpace => "GenericLogicalSpace",
        CityObjectClass::GenericOccupiedSpace => "GenericOccupiedSpace",
        CityObjectClass::GenericThematicSurface => "GenericThematicSurface",
        CityObjectClass::GenericUnoccupiedSpace => "GenericUnoccupiedSpace",
        CityObjectClass::GroundSurface => "GroundSurface",
        CityObjectClass::Hole => "Hole",
        CityObjectClass::HoleSurface => "HoleSurface",
        CityObjectClass::HollowSpace => "HollowSpace",
        CityObjectClass::InteriorWallSurface => "InteriorWallSurface",
        CityObjectClass::Intersection => "Intersection",
        CityObjectClass::Marking => "Marking",
        CityObjectClass::OtherConstruction => "OtherConstruction",
        CityObjectClass::OuterCeilingSurface => "OuterCeilingSurface",
        CityObjectClass::OuterFloorSurface => "OuterFloorSurface",
        CityObjectClass::PlantCover => "PlantCover",
        CityObjectClass::Railway => "Railway",
        CityObjectClass::Road => "Road",
        CityObjectClass::RoofSurface => "RoofSurface",
        CityObjectClass::Section => "Section",
        CityObjectClass::SolitaryVegetationObject => "SolitaryVegetationObject",
        CityObjectClass::Square => "Square",
        CityObjectClass::Story => "Story",
        CityObjectClass::Track => "Track",
        CityObjectClass::TrafficArea => "TrafficArea",
        CityObjectClass::TrafficSpace => "TrafficSpace",
        CityObjectClass::Tunnel => "Tunnel",
        CityObjectClass::TunnelConstructiveElement => "TunnelConstructiveElement",
        CityObjectClass::TunnelFurniture => "TunnelFurniture",
        CityObjectClass::TunnelInstallation => "TunnelInstallation",
        CityObjectClass::TunnelPart => "TunnelPart",
        CityObjectClass::WallSurface => "WallSurface",
        CityObjectClass::WaterBody => "WaterBody",
        CityObjectClass::WaterGroundSurface => "WaterGroundSurface",
        CityObjectClass::WaterSurface => "WaterSurface",
        CityObjectClass::Waterway => "Waterway",
        CityObjectClass::Window => "Window",
        CityObjectClass::WindowSurface => "WindowSurface",
    }
}

/// The character of a text at a place, or a blank beyond its end.
spec fn char_at(text: Seq<char>, i: int) -> char {
    if 0 <= i < text.len() {
        text[i]
    } else {
        ' '
    }
}

/// What tells the class names apart: the length of a name and a few of its
/// characters.
spec fn mark(text: Seq<char>) -> (nat, char, char, char) {
    (text.len(), char_at(text, 0), char_at(text, 3), char_at(text, 8))
}

/// The mark of the name of each class.
spec fn class_mark(class: CityObjectClass) -> (nat, char, char, char) {
    match class {
        CityObjectClass::AuxiliaryTrafficArea => (20, 'A', 'i', 'y'),
        CityObjectClass::AuxiliaryTrafficSpace => (21, 'A', 'i', 'y'),
        CityObjectClass::Bridge => (6, 'B', 'd', ' '),
        CityObjectClass::BridgeConstructiveElement => (25, 'B', 'd', 'n'),
        CityObjectClass::BridgeFurniture => (15, 'B', 'd', 'r'),
        CityObjectClass::BridgeInstallation => (18, 'B', 'd', 's'),
        CityObjectClass::BridgePart => (10, 'B', 'd', 'r'),
        CityObjectClass::BridgeRoom => (10, 'B', 'd', 'o'),
        CityObjectClass::Building => (8, 'B', 'l', ' '),
        CityObjectClass::BuildingConstructiveElement => (27, 'B', 'l', 'C'),
        CityObjectClass::BuildingFurniture => (17, 'B', 'l', 'F'),
        CityObjectClass::BuildingInstallation => (20, 'B', 'l', 'I'),
        CityObjectClass::BuildingPart => (12, 'B', 'l', 'P'),
        CityObjectClass::BuildingRoom => (12, 'B', 'l', 'R'),
        CityObjectClass::BuildingUnit => (12, 'B', 'l', 'U'),
        CityObjectClass::CeilingSurface => (14, 'C', 'l', 'u'),
        CityObjectClass::CityFurniture => (13, 'C', 'y', 'i'),
        CityObjectClass::CityObjectGroup => (15, 'C', 'y', 'c'),
        CityObjectClass::ClearanceSpace => (14, 'C', 'a', 'e'),
        CityObjectClass::Door => (4, 'D', 'r', ' '),
        CityObjectClass::DoorSurface => (11, 'D', 'r', 'a'),
        CityObjectClass::FloorSurface => (12, 'F', 'o', 'f'),
        CityObjectClass::GenericLogicalSpace => (19, 'G', 'e', 'o'),
        CityObjectClass::GenericOccupiedSpace => (20, 'G', 'e', 'c'),
        CityObjectClass::GenericThematicSurface => (22, 'G', 'e', 'h'),
        CityObjectClass::GenericUnoccupiedSpace => (22, 'G', 'e', 'n'),
        CityObjectClass::GroundSurface => (13, 'G', 'u', 'r'),
        CityObjectClass::Hole => (4, 'H', 'e', ' '),
        CityObjectClass::HoleSurface => (11, 'H', 'e', 'a'),
        CityObjectClass::HollowSpace => (11, 'H', 'l', 'a'),
        CityObjectClass::InteriorWallSurface => (19, 'I', 'e', 'W'),
        CityObjectClass::Intersection => (12, 'I', 'e', 't'),
        CityObjectClass::Marking => (7, 'M', 'k', ' '),
        CityObjectClass::OtherConstruction => (17, 'O', 'e', 's'),
        CityObjectClass::OuterCeilingSurface => (19, 'O', 'e', 'l'),
        CityObjectClass::OuterFloorSurface => (17, 'O', 'e', 'o'),
        CityObjectClass::PlantCover => (10, 'P', 'n', 'e'),
        CityObjectClass::Railway => (7, 'R', 'l', ' '),
        CityObjectClass::Road => (4, 'R', 'd', ' '),
        CityObjectClass::RoofSurface => (11, 'R', 'f', 'a'),
        CityObjectClass::Section => (7, 'S', 't', ' '),
        CityObjectClass::SolitaryVegetationObject => (24, 'S', 'i', 'V'),
        CityObjectClass::Square => (6, 'S', 'a', ' '),
        CityObjectClass::Story => (5, 'S', 'r', ' '),
        CityObjectClass::Track => (5, 'T', 'c', ' '),
        CityObjectClass::TrafficArea => (11, 'T', 'f', 'r'),
        CityObjectClass::TrafficSpace => (12, 'T', 'f', 'p'),
        CityObjectClass::Tunnel => (6, 'T', 'n', ' '),
        CityObjectClass::TunnelConstructiveElement => (25, 'T', 'n', 'n'),
        CityObjectClass::TunnelFurniture => (15, 'T', 'n', 'r'),
        CityObjectClass::TunnelInstallation => (18, 'T', 'n', 's'),
        CityObjectClass::TunnelPart => (10, 'T', 'n', 'r'),
        CityObjectClass::WallSurface => (11, 'W', 'l', 'a'),
        CityObjectClass::WaterBody => (9, 'W', 'e', 'y'),
        CityObjectClass::WaterGroundSurface => (18, 'W', 'e', 'u'),
        CityObjectClass::WaterSurface => (12, 'W', 'e', 'f'),
        CityObjectClass::Waterway => (8, 'W', 'e', ' '),
        CityObjectClass::Window => (6, 'W', 'd', ' '),
        CityObjectClass::WindowSurface => (13, 'W', 'd', 'r'),
    }
}

/// The name of each class has the mark that is listed for it.
proof fn lemma_class_mark(class: CityObjectClass)
    ensures
        mark(class_name(class)) == class_mark(class),
{
    reveal_strlit("AuxiliaryTrafficArea");
    reveal_strlit("AuxiliaryTrafficSpace");
    reveal_strlit("Bridge");
    reveal_strlit("BridgeConstructiveElement");
    reveal_strlit("BridgeFurniture");
    reveal_strlit("BridgeInstallation");
    reveal_strlit("BridgePart");
    reveal_strlit("BridgeRoom");
    reveal_strlit("Building");
    reveal_strlit("BuildingConstructiveElement");
    reveal_strlit("BuildingFurniture");
    reveal_strlit("BuildingInstallation");
    reveal_strlit("BuildingPart");
    reveal_strlit("BuildingRoom");
    reveal_strlit("BuildingUnit");
    reveal_strlit("CeilingSurface");
    reveal_strlit("CityFurniture");
    reveal_strlit("CityObjectGroup");
    reveal_strlit("ClearanceSpace");
    reveal_strlit("Door");
    reveal_strlit("DoorSurface");
    reveal_strlit("FloorSurface");
    reveal_strlit("GenericLogicalSpace");
    reveal_strlit("GenericOccupiedSpace");
    reveal_strlit("GenericThematicSurface");
    reveal_strlit("GenericUnoccupiedSpace");
    reveal_strlit("GroundSurface");
    reveal_strlit("Hole");
    reveal_strlit("HoleSurface");
    reveal_strlit("HollowSpace");
    reveal_strlit("InteriorWallSurface");
    reveal_strlit("Intersection");
    reveal_strlit("Marking");
    reveal_strlit("OtherConstruction");
    reveal_strlit("OuterCeilingSurface");
    reveal_strlit("OuterFloorSurface");
    reveal_strlit("PlantCover");
    reveal_strlit("Railway");
    reveal_strlit("Road");
    reveal_strlit("RoofSurface");
    reveal_strlit("Section");
    reveal_strlit("SolitaryVegetationObject");
    reveal_strlit("Square");
    reveal_strlit("Story");
    reveal_strlit("Track");
    reveal_strlit("TrafficArea");
    reveal_strlit("TrafficSpace");
    reveal_strlit("Tunnel");
    reveal_strlit("TunnelConstructiveElement");
    reveal_strlit("TunnelFurniture");
    reveal_strlit("TunnelInstallation");
    reveal_strlit("TunnelPart");
    reveal_strlit("WallSurface");
    reveal_strlit("WaterBody");
    reveal_strlit("WaterGroundSurface");
    reveal_strlit("WaterSurface");
    reveal_strlit("Waterway");
    reveal_strlit("Window");
    reveal_strlit("WindowSurface");
}

/// No two classes have the same name, so that gathering by the name of the
/// class is gathering by the class.
pub proof fn lemma_class_name_injective(a: CityObjectClass, b: CityObjectClass)
    requires
        class_name(a) == class_name(b),
    ensures
        a == b,
{
    lemma_class_mark(a);
    lemma_class_mark(b);
}

} // verus!
