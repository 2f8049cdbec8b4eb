//! Resource types and the stores that hold them.
use vstd::prelude::*;

use crate::text::{chars_of, segment_equals};

verus! {

/// All possible resource identifiers in the game.
#[derive(Copy, Clone, Debug, PartialEq, Eq, PartialOrd, Ord, Hash, Structural)]
pub enum ResourceType {
    /// RESOURCE_ENERGY: "energy"
    Energy,
    /// RESOURCE_POWER: "power"
    Power,
    /// RESOURCE_HYDROGEN: "H"
    Hydrogen,
    /// RESOURCE_OXYGEN: "O"
    Oxygen,
    /// RESOURCE_UTRIUM: "U"
    Utrium,
    /// RESOURCE_LEMERGIUM: "L"
    Lemergium,
    /// RESOURCE_KEANIUM: "K"
    Keanium,
    /// RESOURCE_ZYNTHIUM: "Z"
    Zynthium,
    /// RESOURCE_CATALYST: "X"
    Catalyst,
    /// RESOURCE_GHODIUM: "G"
    Ghodium,
    /// RESOURCE_SILICON: "silicon"
    Silicon,
    /// RESOURCE_METAL: "metal"
    Metal,
    /// RESOURCE_BIOMASS: "biomass"
    Biomass,
    /// RESOURCE_MIST: "mist"
    Mist,
    /// RESOURCE_HYDROXIDE: "OH"
    Hydroxide,
    /// RESOURCE_ZYNTHIUM_KEANITE: "ZK"
    ZynthiumKeanite,
    /// RESOURCE_UTRIUM_LEMERGITE: "UL"
    UtriumLemergite,
    /// RESOURCE_UTRIUM_HYDRIDE: "UH"
    UtriumHydride,
    /// RESOURCE_UTRIUM_OXIDE: "UO"
    UtriumOxide,
    /// RESOURCE_KEANIUM_HYDRIDE: "KH"
    KeaniumHydride,
    /// RESOURCE_KEANIUM_OXIDE: "KO"
    KeaniumOxide,
    /// RESOURCE_LEMERGIUM_HYDRIDE: "LH"
    LemergiumHydride,
    /// RESOURCE_LEMERGIUM_OXIDE: "LO"
    LemergiumOxide,
    /// RESOURCE_ZYNTHIUM_HYDRIDE: "ZH"
    ZynthiumHydride,
    /// RESOURCE_ZYNTHIUM_OXIDE: "ZO"
    ZynthiumOxide,
    /// RESOURCE_GHODIUM_HYDRIDE: "GH"
    GhodiumHydride,
    /// RESOURCE_GHODIUM_OXIDE: "GO"
    GhodiumOxide,
    /// RESOURCE_UTRIUM_ACID: "UH2O"
    UtriumAcid,
    /// RESOURCE_UTRIUM_ALKALIDE: "UHO2"
    UtriumAlkalide,
    /// RESOURCE_KEANIUM_ACID: "KH2O"
    KeaniumAcid,
    /// RESOURCE_KEANIUM_ALKALIDE: "KHO2"
    KeaniumAlkalide,
    /// RESOURCE_LEMERGIUM_ACID: "LH2O"
    LemergiumAcid,
    /// RESOURCE_LEMERGIUM_ALKALIDE: "LHO2"
    LemergiumAlkalide,
    /// RESOURCE_ZYNTHIUM_ACID: "ZH2O"
    ZynthiumAcid,
    /// RESOURCE_ZYNTHIUM_ALKALIDE: "ZHO2"
    ZynthiumAlkalide,
    /// RESOURCE_GHODIUM_ACID: "GH2O"
    GhodiumAcid,
    /// RESOURCE_GHODIUM_ALKALIDE: "GHO2"
    GhodiumAlkalide,
    /// RESOURCE_CATALYZED_UTRIUM_ACID: "XUH2O"
    CatalyzedUtriumAcid,
    /// RESOURCE_CATALYZED_UTRIUM_ALKALIDE: "XUHO2"
    CatalyzedUtriumAlkalide,
    /// RESOURCE_CATALYZED_KEANIUM_ACID: "XKH2O"
    CatalyzedKeaniumAcid,
    /// RESOURCE_CATALYZED_KEANIUM_ALKALIDE: "XKHO2"
    CatalyzedKeaniumAlkalide,
    /// RESOURCE_CATALYZED_LEMERGIUM_ACID: "XLH2O"
    CatalyzedLemergiumAcid,
    /// RESOURCE_CATALYZED_LEMERGIUM_ALKALIDE: "XLHO2"
    CatalyzedLemergiumAlkalide,
    /// RESOURCE_CATALYZED_ZYNTHIUM_ACID: "XZH2O"
    CatalyzedZynthiumAcid,
    /// RESOURCE_CATALYZED_ZYNTHIUM_ALKALIDE: "XZHO2"
    CatalyzedZynthiumAlkalide,
    /// RESOURCE_CATALYZED_GHODIUM_ACID: "XGH2O"
    CatalyzedGhodiumAcid,
    /// RESOURCE_CATALYZED_GHODIUM_ALKALIDE: "XGHO2"
    CatalyzedGhodiumAlkalide,
    /// RESOURCE_OPS: "ops"
    Ops,
    /// RESOURCE_UTRIUM_BAR: "utrium_bar"
    UtriumBar,
    /// RESOURCE_LEMERGIUM_BAR: "lemergium_bar"
    LemergiumBar,
    /// RESOURCE_ZYNTHIUM_BAR: "zynthium_bar"
    ZynthiumBar,
    /// RESOURCE_KEANIUM_BAR: "keanium_bar"
    KeaniumBar,
    /// RESOURCE_GHODIUM_MELT: "ghodium_melt"
    GhodiumMelt,
    /// RESOURCE_OXIDANT: "oxidant"
    Oxidant,
    /// RESOURCE_REDUCTANT: "reductant"
    Reductant,
    /// RESOURCE_PURIFIER: "purifier"
    Purifier,
    /// RESOURCE_BATTERY: "battery"
    Battery,
    /// RESOURCE_COMPOSITE: "composite"
    Composite,
    /// RESOURCE_CRYSTAL: "crystal"
    Crystal,
    /// RESOURCE_LIQUID: "liquid"
    Liquid,
    /// RESOURCE_WIRE: "wire"
    Wire,
    /// RESOURCE_SWITCH: "switch"
    Switch,
    /// RESOURCE_TRANSISTOR: "transistor"
    Transistor,
    /// RESOURCE_MICROCHIP: "microchip"
    Microchip,
    /// RESOURCE_CIRCUIT: "circuit"
    Circuit,
    /// RESOURCE_DEVICE: "device"
    Device,
    /// RESOURCE_CELL: "cell"
    Cell,
    /// RESOURCE_PHLEGM: "phlegm"
    Phlegm,
    /// RESOURCE_TISSUE: "tissue"
    Tissue,
    /// RESOURCE_MUSCLE: "muscle"
    Muscle,
    /// RESOURCE_ORGANOID: "organoid"
    Organoid,
    /// RESOURCE_ORGANISM: "organism"
    Organism,
    /// RESOURCE_ALLOY: "alloy"
    Alloy,
    /// RESOURCE_TUBE: "tube"
    Tube,
    /// RESOURCE_FIXTURES: "fixtures"
    Fixtures,
    /// RESOURCE_FRAME: "frame"
    Frame,
    /// RESOURCE_HYDRAULICS: "hydraulics"
    Hydraulics,
    /// RESOURCE_MACHINE: "machine"
    Machine,
    /// RESOURCE_CONDENSATE: "condensate"
    Condensate,
    /// RESOURCE_CONCENTRATE: "concentrate"
    Concentrate,
    /// RESOURCE_EXTRACT: "extract"
    Extract,
    /// RESOURCE_SPIRIT: "spirit"
    Spirit,
    /// RESOURCE_EMANATION: "emanation"
    Emanation,
    /// RESOURCE_ESSENCE: "essence"
    Essence,
}

/// The in-game resource string of each resource type.
pub open spec fn resource_text(r: ResourceType) -> Seq<char> {
    match r {
        ResourceType::Energy => "energy"@,
        ResourceType::Power => "power"@,
        ResourceType::Hydrogen => "H"@,
        ResourceType::Oxygen => "O"@,
        ResourceType::Utrium => "U"@,
        ResourceType::Lemergium => "L"@,
        ResourceType::Keanium => "K"@,
        ResourceType::Zynthium => "Z"@,
        ResourceType::Catalyst => "X"@,
        ResourceType::Ghodium => "G"@,
        ResourceType::Silicon => "silicon"@,
        ResourceType::Metal => "metal"@,
        ResourceType::Biomass => "biomass"@,
        ResourceType::Mist => "mist"@,
        ResourceType::Hydroxide => "OH"@,
        ResourceType::ZynthiumKeanite => "ZK"@,
        ResourceType::UtriumLemergite => "UL"@,
        ResourceType::UtriumHydride => "UH"@,
        ResourceType::UtriumOxide => "UO"@,
        ResourceType::KeaniumHydride => "KH"@,
        ResourceType::KeaniumOxide => "KO"@,
        ResourceType::LemergiumHydride => "LH"@,
        ResourceType::LemergiumOxide => "LO"@,
        ResourceType::ZynthiumHydride => "ZH"@,
        ResourceType::ZynthiumOxide => "ZO"@,
        ResourceType::GhodiumHydride => "GH"@,
        ResourceType::GhodiumOxide => "GO"@,
        ResourceType::UtriumAcid => "UH2O"@,
        ResourceType::UtriumAlkalide => "UHO2"@,
        ResourceType::KeaniumAcid => "KH2O"@,
        ResourceType::KeaniumAlkalide => "KHO2"@,
        ResourceType::LemergiumAcid => "LH2O"@,
        ResourceType::LemergiumAlkalide => "LHO2"@,
        ResourceType::ZynthiumAcid => "ZH2O"@,
        ResourceType::ZynthiumAlkalide => "ZHO2"@,
        ResourceType::GhodiumAcid => "GH2O"@,
        ResourceType::GhodiumAlkalide => "GHO2"@,
        ResourceType::CatalyzedUtriumAcid => "XUH2O"@,
        ResourceType::CatalyzedUtriumAlkalide => "XUHO2"@,
        ResourceType::CatalyzedKeaniumAcid => "XKH2O"@,
        ResourceType::CatalyzedKeaniumAlkalide => "XKHO2"@,
        ResourceType::CatalyzedLemergiumAcid => "XLH2O"@,
        ResourceType::CatalyzedLemergiumAlkalide => "XLHO2"@,
        ResourceType::CatalyzedZynthiumAcid => "XZH2O"@,
        ResourceType::CatalyzedZynthiumAlkalide => "XZHO2"@,
        ResourceType::CatalyzedGhodiumAcid => "XGH2O"@,
        ResourceType::CatalyzedGhodiumAlkalide => "XGHO2"@,
        ResourceType::Ops => "ops"@,
        ResourceType::UtriumBar => "utrium_bar"@,
        ResourceType::LemergiumBar => "lemergium_bar"@,
        ResourceType::ZynthiumBar => "zynthium_bar"@,
        ResourceType::KeaniumBar => "keanium_bar"@,
        ResourceType::GhodiumMelt => "ghodium_melt"@,
        ResourceType::Oxidant => "oxidant"@,
        ResourceType::Reductant => "reductant"@,
        ResourceType::Purifier => "purifier"@,
        ResourceType::Battery => "battery"@,
        ResourceType::Composite => "composite"@,
        ResourceType::Crystal => "crystal"@,
        ResourceType::Liquid => "liquid"@,
        ResourceType::Wire => "wire"@,
        ResourceType::Switch => "switch"@,
        ResourceType::Transistor => "transistor"@,
        ResourceType::Microchip => "microchip"@,
        ResourceType::Circuit => "circuit"@,
        ResourceType::Device => "device"@,
        ResourceType::Cell => "cell"@,
        ResourceType::Phlegm => "phlegm"@,
        ResourceType::Tissue => "tissue"@,
        ResourceType::Muscle => "muscle"@,
        ResourceType::Organoid => "organoid"@,
        ResourceType::Organism => "organism"@,
        ResourceType::Alloy => "alloy"@,
        ResourceType::Tube => "tube"@,
        ResourceType::Fixtures => "fixtures"@,
        ResourceType::Frame => "frame"@,
        ResourceType::Hydraulics => "hydraulics"@,
        ResourceType::Machine => "machine"@,
        ResourceType::Condensate => "condensate"@,
        ResourceType::Concentrate => "concentrate"@,
        ResourceType::Extract => "extract"@,
        ResourceType::Spirit => "spirit"@,
        ResourceType::Emanation => "emanation"@,
        ResourceType::Essence => "essence"@,
    }
}

impl ResourceType {
    /// Finds the in-game resource type string for this resource type, such as `"U"` for
    /// `RESOURCE_UTRIUM`.
    pub fn to_resource_string(&self) -> (r: &'static str)
        ensures
            r@ == resource_text(*self),
    {
        match self {
            ResourceType::Energy => "energy",
            ResourceType::Power => "power",
            ResourceType::Hydrogen => "H",
            ResourceType::Oxygen => "O",
            ResourceType::Utrium => "U",
            ResourceType::Lemergium => "L",
            ResourceType::Keanium => "K",
            ResourceType::Zynthium => "Z",
            ResourceType::Catalyst => "X",
            ResourceType::Ghodium => "G",
            ResourceType::Silicon => "silicon",
            ResourceType::Metal => "metal",
            ResourceType::Biomass => "biomass",
            ResourceType::Mist => "mist",
            ResourceType::Hydroxide => "OH",
            ResourceType::ZynthiumKeanite => "ZK",
            ResourceType::UtriumLemergite => "UL",
            ResourceType::UtriumHydride => "UH",
            ResourceType::UtriumOxide => "UO",
            ResourceType::KeaniumHydride => "KH",
            ResourceType::KeaniumOxide => "KO",
            ResourceType::LemergiumHydride => "LH",
            ResourceType::LemergiumOxide => "LO",
            ResourceType::ZynthiumHydride => "ZH",
            ResourceType::ZynthiumOxide => "ZO",
            ResourceType::GhodiumHydride => "GH",
            ResourceType::GhodiumOxide => "GO",
            ResourceType::UtriumAcid => "UH2O",
            ResourceType::UtriumAlkalide => "UHO2",
            ResourceType::KeaniumAcid => "KH2O",
            ResourceType::KeaniumAlkalide => "KHO2",
            ResourceType::LemergiumAcid => "LH2O",
            ResourceType::LemergiumAlkalide => "LHO2",
            ResourceType::ZynthiumAcid => "ZH2O",
            ResourceType::ZynthiumAlkalide => "ZHO2",
            ResourceType::GhodiumAcid => "GH2O",
            ResourceType::GhodiumAlkalide => "GHO2",
            ResourceType::CatalyzedUtriumAcid => "XUH2O",
            ResourceType::CatalyzedUtriumAlkalide => "XUHO2",
            ResourceType::CatalyzedKeaniumAcid => "XKH2O",
            ResourceType::CatalyzedKeaniumAlkalide => "XKHO2",
            ResourceType::CatalyzedLemergiumAcid => "XLH2O",
            ResourceType::CatalyzedLemergiumAlkalide => "XLHO2",
            ResourceType::CatalyzedZynthiumAcid => "XZH2O",
            ResourceType::CatalyzedZynthiumAlkalide => "XZHO2",
            ResourceType::CatalyzedGhodiumAcid => "XGH2O",
            ResourceType::CatalyzedGhodiumAlkalide => "XGHO2",
            ResourceType::Ops => "ops",
            ResourceType::UtriumBar => "utrium_bar",
            ResourceType::LemergiumBar => "lemergium_bar",
            ResourceType::ZynthiumBar => "zynthium_bar",
            ResourceType::KeaniumBar => "keanium_bar",
            ResourceType::GhodiumMelt => "ghodium_melt",
            ResourceType::Oxidant => "oxidant",
            ResourceType::Reductant => "reductant",
            ResourceType::Purifier => "purifier",
            ResourceType::Battery => "battery",
            ResourceType::Composite => "composite",
            ResourceType::Crystal => "crystal",
            ResourceType::Liquid => "liquid",
            ResourceType::Wire => "wire",
            ResourceType::Switch => "switch",
            ResourceType::Transistor => "transistor",
            ResourceType::Microchip => "microchip",
            ResourceType::Circuit => "circuit",
            ResourceType::Device => "device",
            ResourceType::Cell => "cell",
            ResourceType::Phlegm => "phlegm",
            ResourceType::Tissue => "tissue",
            ResourceType::Muscle => "muscle",
            ResourceType::Organoid => "organoid",
            ResourceType::Organism => "organism",
            ResourceType::Alloy => "alloy",
            ResourceType::Tube => "tube",
            ResourceType::Fixtures => "fixtures",
            ResourceType::Frame => "frame",
            ResourceType::Hydraulics => "hydraulics",
            ResourceType::Machine => "machine",
            ResourceType::Condensate => "condensate",
            ResourceType::Concentrate => "concentrate",
            ResourceType::Extract => "extract",
            ResourceType::Spirit => "spirit",
            ResourceType::Emanation => "emanation",
            ResourceType::Essence => "essence",
        }
    }
}

/// The resource type whose in-game string is `s`, found by the length of `s` and then by the
/// characters that tell the strings of that length apart.
pub open spec fn resource_of_text(s: Seq<char>) -> Option<ResourceType> {
    if s.len() == 1 {
        if s[0] == 'H' {
            if s == "H"@ {
                Some(ResourceType::Hydrogen)
            } else {
                None
            }
        } else if s[0] == 'O' {
            if s == "O"@ {
                Some(ResourceType::Oxygen)
            } else {
                None
            }
        } else if s[0] == 'U' {
            if s == "U"@ {
                Some(ResourceType::Utrium)
            } else {
                None
            }
        } else if s[0] == 'L' {
            if s == "L"@ {
                Some(ResourceType::Lemergium)
            } else {
                None
            }
        } else if s[0] == 'K' {
            if s == "K"@ {
                Some(ResourceType::Keanium)
            } else {
                None
            }
        } else if s[0] == 'Z' {
            if s == "Z"@ {
                Some(ResourceType::Zynthium)
            } else {
                None
            }
        } else if s[0] == 'X' {
            if s == "X"@ {
                Some(ResourceType::Catalyst)
            } else {
                None
            }
        } else if s[0] == 'G' {
            if s == "G"@ {
                Some(ResourceType::Ghodium)
            } else {
                None
            }
        } else {
            None
        }
    } else if s.len() == 2 {
        if s[0] == 'O' {
            if s == "OH"@ {
                Some(ResourceType::Hydroxide)
            } else {
                None
            }
        } else if s[0] == 'Z' {
            if s[1] == 'K' {
                if s == "ZK"@ {
                    Some(ResourceType::ZynthiumKeanite)
                } else {
                    None
                }
            } else if s[1] == 'H' {
                if s == "ZH"@ {
                    Some(ResourceType::ZynthiumHydride)
                } else {
                    None
                }
            } else if s[1] == 'O' {
                if s == "ZO"@ {
                    Some(ResourceType::ZynthiumOxide)
                } else {
                    None
                }
            } else {
                None
            }
        } else if s[0] == 'U' {
            if s[1] == 'L' {
                if s == "UL"@ {
                    Some(ResourceType::UtriumLemergite)
                } else {
                    None
                }
            } else if s[1] == 'H' {
                if s == "UH"@ {
                    Some(ResourceType::UtriumHydride)
                } else {
                    None
                }
            } else if s[1] == 'O' {
                if s == "UO"@ {
                    Some(ResourceType::UtriumOxide)
                } else {
                    None
                }
            } else {
                None
            }
        } else if s[0] == 'K' {
            if s[1] == 'H' {
                if s == "KH"@ {
                    Some(ResourceType::KeaniumHydride)
                } else {
                    None
                }
            } else if s[1] == 'O' {
                if s == "KO"@ {
                    Some(ResourceType::KeaniumOxide)
                } else {
                    None
                }
            } else {
                None
            }
        } else if s[0] == 'L' {
            if s[1] == 'H' {
                if s == "LH"@ {
                    Some(ResourceType::LemergiumHydride)
                } else {
                    None
                }
            } else if s[1] == 'O' {
                if s == "LO"@ {
                    Some(ResourceType::LemergiumOxide)
                } else {
                    None
                }
            } else {
                None
            }
        } else if s[0] == 'G' {
            if s[1] == 'H' {
                if s == "GH"@ {
                    Some(ResourceType::GhodiumHydride)
                } else {
                    None
                }
            } else if s[1] == 'O' {
                if s == "GO"@ {
                    Some(ResourceType::GhodiumOxide)
                } else {
                    None
                }
            } else {
                None
            }
        } else {
            None
        }
    } else if s.len() == 3 {
        if s == "ops"@ {
            Some(ResourceType::Ops)
        } else {
            None
        }
    } else if s.len() == 4 {
        if s[0] == 'm' {
            if s == "mist"@ {
                Some(ResourceType::Mist)
            } else {
                None
            }
        } else if s[0] == 'U' {
            if s[2] == '2' {
                if s == "UH2O"@ {
                    Some(ResourceType::UtriumAcid)
                } else {
                    None
                }
            } else if s[2] == 'O' {
                if s == "UHO2"@ {
                    Some(ResourceType::UtriumAlkalide)
                } else {
                    None
                }
            } else {
                None
            }
        } else if s[0] == 'K' {
            if s[2] == '2' {
                if s == "KH2O"@ {
                    Some(ResourceType::KeaniumAcid)
                } else {
                    None
                }
            } else if s[2] == 'O' {
                if s == "KHO2"@ {
                    Some(ResourceType::KeaniumAlkalide)
                } else {
                    None
                }
            } else {
                None
            }
        } else if s[0] == 'L' {
            if s[2] == '2' {
                if s == "LH2O"@ {
                    Some(ResourceType::LemergiumAcid)
                } else {
                    None
                }
            } else if s[2] == 'O' {
                if s == "LHO2"@ {
                    Some(ResourceType::LemergiumAlkalide)
                } else {
                    None
                }
            } else {
                None
            }
        } else if s[0] == 'Z' {
            if s[2] == '2' {
                if s == "ZH2O"@ {
                    Some(ResourceType::ZynthiumAcid)
                } else {
                    None
                }
            } else if s[2] == 'O' {
                if s == "ZHO2"@ {
                    Some(ResourceType::ZynthiumAlkalide)
                } else {
                    None
                }
            } else {
                None
            }
        } else if s[0] == 'G' {
            if s[2] == '2' {
                if s == "GH2O"@ {
                    Some(ResourceType::GhodiumAcid)
                } else {
                    None
                }
            } else if s[2] == 'O' {
                if s == "GHO2"@ {
                    Some(ResourceType::GhodiumAlkalide)
                } else {
                    None
                }
            } else {
                None
            }
        } else if s[0] == 'w' {
            if s == "wire"@ {
                Some(ResourceType::Wire)
            } else {
                None
            }
        } else if s[0] == 'c' {
            if s == "cell"@ {
                Some(ResourceType::Cell)
            } else {
                None
            }
        } else if s[0] == 't' {
            if s == "tube"@ {
                Some(ResourceType::Tube)
            } else {
                None
            }
        } else {
            None
        }
    } else if s.len() == 5 {
        if s[0] == 'p' {
            if s == "power"@ {
                Some(ResourceType::Power)
            } else {
                None
            }
        } else if s[0] == 'm' {
            if s == "metal"@ {
                Some(ResourceType::Metal)
            } else {
                None
            }
        } else if s[0] == 'X' {
            if s[1] == 'U' {
                if s[3] == '2' {
                    if s == "XUH2O"@ {
                        Some(ResourceType::CatalyzedUtriumAcid)
                    } else {
                        None
                    }
                } else if s[3] == 'O' {
                    if s == "XUHO2"@ {
                        Some(ResourceType::CatalyzedUtriumAlkalide)
                    } else {
                        None
                    }
                } else {
                    None
                }
            } else if s[1] == 'K' {
                if s[3] == '2' {
                    if s == "XKH2O"@ {
                        Some(ResourceType::CatalyzedKeaniumAcid)
                    } else {
                        None
                    }
                } else if s[3] == 'O' {
                    if s == "XKHO2"@ {
                        Some(ResourceType::CatalyzedKeaniumAlkalide)
                    } else {
                        None
                    }
                } else {
                    None
                }
            } else if s[1] == 'L' {
                if s[3] == '2' {
                    if s == "XLH2O"@ {
                        Some(ResourceType::CatalyzedLemergiumAcid)
                    } else {
                        None
                    }
                } else if s[3] == 'O' {
                    if s == "XLHO2"@ {
                        Some(ResourceType::CatalyzedLemergiumAlkalide)
                    } else {
                        None
                    }
                } else {
                    None
                }
            } else if s[1] == 'Z' {
                if s[3] == '2' {
                    if s == "XZH2O"@ {
                        Some(ResourceType::CatalyzedZynthiumAcid)
                    } else {
                        None
                    }
                } else if s[3] == 'O' {
                    if s == "XZHO2"@ {
                        Some(ResourceType::CatalyzedZynthiumAlkalide)
                    } else {
                        None
                    }
                } else {
                    None
                }
            } else if s[1] == 'G' {
                if s[3] == '2' {
                    if s == "XGH2O"@ {
                        Some(ResourceType::CatalyzedGhodiumAcid)
                    } else {
                        None
                    }
                } else if s[3] == 'O' {
                    if s == "XGHO2"@ {
                        Some(ResourceType::CatalyzedGhodiumAlkalide)
                    } else {
                        None
                    }
                } else {
                    None
                }
            } else {
                None
            }
        } else if s[0] == 'a' {
            if s == "alloy"@ {
                Some(ResourceType::Alloy)
            } else {
                None
            }
        } else if s[0] == 'f' {
            if s == "frame"@ {
                Some(ResourceType::Frame)
            } else {
                None
            }
        } else {
            None
        }
    } else if s.len() == 6 {
        if s[0] == 'e' {
            if s == "energy"@ {
                Some(ResourceType::Energy)
            } else {
                None
            }
        } else if s[0] == 'l' {
            if s == "liquid"@ {
                Some(ResourceType::Liquid)
            } else {
                None
            }
        } else if s[0] == 's' {
            if s[1] == 'w' {
                if s == "switch"@ {
                    Some(ResourceType::Switch)
                } else {
                    None
                }
            } else if s[1] == 'p' {
                if s == "spirit"@ {
                    Some(ResourceType::Spirit)
                } else {
                    None
                }
            } else {
                None
            }
        } else if s[0] == 'd' {
            if s == "device"@ {
                Some(ResourceType::Device)
            } else {
                None
            }
        } else if s[0] == 'p' {
            if s == "phlegm"@ {
                Some(ResourceType::Phlegm)
            } else {
                None
            }
        } else if s[0] == 't' {
            if s == "tissue"@ {
                Some(ResourceType::Tissue)
            } else {
                None
            }
        } else if s[0] == 'm' {
            if s == "muscle"@ {
                Some(ResourceType::Muscle)
            } else {
                None
            }
        } else {
            None
        }
    } else if s.len() == 7 {
        if s[0] == 's' {
            if s == "silicon"@ {
                Some(ResourceType::Silicon)
            } else {
                None
            }
        } else if s[0] == 'b' {
            if s[1] == 'i' {
                if s == "biomass"@ {
                    Some(ResourceType::Biomass)
                } else {
                    None
                }
            } else if s[1] == 'a' {
                if s == "battery"@ {
                    Some(ResourceType::Battery)
                } else {
                    None
                }
            } else {
                None
            }
        } else if s[0] == 'o' {
            if s == "oxidant"@ {
                Some(ResourceType::Oxidant)
            } else {
                None
            }
        } else if s[0] == 'c' {
            if s[1] == 'r' {
                if s == "crystal"@ {
                    Some(ResourceType::Crystal)
                } else {
                    None
                }
            } else if s[1] == 'i' {
                if s == "circuit"@ {
                    Some(ResourceType::Circuit)
                } else {
                    None
                }
            } else {
                None
            }
        } else if s[0] == 'm' {
            if s == "machine"@ {
                Some(ResourceType::Machine)
            } else {
                None
            }
        } else if s[0] == 'e' {
            if s[1] == 'x' {
                if s == "extract"@ {
                    Some(ResourceType::Extract)
                } else {
                    None
                }
            } else if s[1] == 's' {
                if s == "essence"@ {
                    Some(ResourceType::Essence)
                } else {
                    None
                }
            } else {
                None
            }
        } else {
            None
        }
    } else if s.len() == 8 {
        if s[0] == 'p' {
            if s == "purifier"@ {
                Some(ResourceType::Purifier)
            } else {
                None
            }
        } else if s[0] == 'o' {
            if s[5] == 'o' {
                if s == "organoid"@ {
                    Some(ResourceType::Organoid)
                } else {
                    None
                }
            } else if s[5] == 'i' {
                if s == "organism"@ {
                    Some(ResourceType::Organism)
                } else {
                    None
                }
            } else {
                None
            }
        } else if s[0] == 'f' {
            if s == "fixtures"@ {
                Some(ResourceType::Fixtures)
            } else {
                None
            }
        } else {
            None
        }
    } else if s.len() == 9 {
        if s[0] == 'r' {
            if s == "reductant"@ {
                Some(ResourceType::Reductant)
            } else {
                None
            }
        } else if s[0] == 'c' {
            if s == "composite"@ {
                Some(ResourceType::Composite)
            } else {
                None
            }
        } else if s[0] == 'm' {
            if s == "microchip"@ {
                Some(ResourceType::Microchip)
            } else {
                None
            }
        } else if s[0] == 'e' {
            if s == "emanation"@ {
                Some(ResourceType::Emanation)
            } else {
                None
            }
        } else {
            None
        }
    } else if s.len() == 10 {
        if s[0] == 'u' {
            if s == "utrium_bar"@ {
                Some(ResourceType::UtriumBar)
            } else {
                None
            }
        } else if s[0] == 't' {
            if s == "transistor"@ {
                Some(ResourceType::Transistor)
            } else {
                None
            }
        } else if s[0] == 'h' {
            if s == "hydraulics"@ {
                Some(ResourceType::Hydraulics)
            } else {
                None
            }
        } else if s[0] == 'c' {
            if s == "condensate"@ {
                Some(ResourceType::Condensate)
            } else {
                None
            }
        } else {
            None
        }
    } else if s.len() == 11 {
        if s[0] == 'k' {
            if s == "keanium_bar"@ {
                Some(ResourceType::KeaniumBar)
            } else {
                None
            }
        } else if s[0] == 'c' {
            if s == "concentrate"@ {
                Some(ResourceType::Concentrate)
            } else {
                None
            }
        } else {
            None
        }
    } else if s.len() == 12 {
        if s[0] == 'z' {
            if s == "zynthium_bar"@ {
                Some(ResourceType::ZynthiumBar)
            } else {
                None
            }
        } else if s[0] == 'g' {
            if s == "ghodium_melt"@ {
                Some(ResourceType::GhodiumMelt)
            } else {
                None
            }
        } else {
            None
        }
    } else if s.len() == 13 {
        if s == "lemergium_bar"@ {
            Some(ResourceType::LemergiumBar)
        } else {
            None
        }
    } else {
        None
    }
}

/// Each resource type is found again from its in-game string.
pub proof fn lemma_resource_of_text(t: ResourceType)
    ensures
        resource_of_text(resource_text(t)) == Some(t),
{
    match t {
        ResourceType::Energy => reveal_strlit("energy"),
        ResourceType::Power => reveal_strlit("power"),
        ResourceType::Hydrogen => reveal_strlit("H"),
        ResourceType::Oxygen => reveal_strlit("O"),
        ResourceType::Utrium => reveal_strlit("U"),
        ResourceType::Lemergium => reveal_strlit("L"),
        ResourceType::Keanium => reveal_strlit("K"),
        ResourceType::Zynthium => reveal_strlit("Z"),
        ResourceType::Catalyst => reveal_strlit("X"),
        ResourceType::Ghodium => reveal_strlit("G"),
        ResourceType::Silicon => reveal_strlit("silicon"),
        ResourceType::Metal => reveal_strlit("metal"),
        ResourceType::Biomass => reveal_strlit("biomass"),
        ResourceType::Mist => reveal_strlit("mist"),
        ResourceType::Hydroxide => reveal_strlit("OH"),
        ResourceType::ZynthiumKeanite => reveal_strlit("ZK"),
        ResourceType::UtriumLemergite => reveal_strlit("UL"),
        ResourceType::UtriumHydride => reveal_strlit("UH"),
        ResourceType::UtriumOxide => reveal_strlit("UO"),
        ResourceType::KeaniumHydride => reveal_strlit("KH"),
        ResourceType::KeaniumOxide => reveal_strlit("KO"),
        ResourceType::LemergiumHydride => reveal_strlit("LH"),
        ResourceType::LemergiumOxide => reveal_strlit("LO"),
        ResourceType::ZynthiumHydride => reveal_strlit("ZH"),
        ResourceType::ZynthiumOxide => reveal_strlit("ZO"),
        ResourceType::GhodiumHydride => reveal_strlit("GH"),
        ResourceType::GhodiumOxide => reveal_strlit("GO"),
        ResourceType::UtriumAcid => reveal_strlit("UH2O"),
        ResourceType::UtriumAlkalide => reveal_strlit("UHO2"),
        ResourceType::KeaniumAcid => reveal_strlit("KH2O"),
        ResourceType::KeaniumAlkalide => reveal_strlit("KHO2"),
        ResourceType::LemergiumAcid => reveal_strlit("LH2O"),
        ResourceType::LemergiumAlkalide => reveal_strlit("LHO2"),
        ResourceType::ZynthiumAcid => reveal_strlit("ZH2O"),
        ResourceType::ZynthiumAlkalide => reveal_strlit("ZHO2"),
        ResourceType::GhodiumAcid => reveal_strlit("GH2O"),
        ResourceType::GhodiumAlkalide => reveal_strlit("GHO2"),
        ResourceType::CatalyzedUtriumAcid => reveal_strlit("XUH2O"),
        ResourceType::CatalyzedUtriumAlkalide => reveal_strlit("XUHO2"),
        ResourceType::CatalyzedKeaniumAcid => reveal_strlit("XKH2O"),
        ResourceType::CatalyzedKeaniumAlkalide => reveal_strlit("XKHO2"),
        ResourceType::CatalyzedLemergiumAcid => reveal_strlit("XLH2O"),
        ResourceType::CatalyzedLemergiumAlkalide => reveal_strlit("XLHO2"),
        ResourceType::CatalyzedZynthiumAcid => reveal_strlit("XZH2O"),
        ResourceType::CatalyzedZynthiumAlkalide => reveal_strlit("XZHO2"),
        ResourceType::CatalyzedGhodiumAcid => reveal_strlit("XGH2O"),
        ResourceType::CatalyzedGhodiumAlkalide => reveal_strlit("XGHO2"),
        ResourceType::Ops => reveal_strlit("ops"),
        ResourceType::UtriumBar => reveal_strlit("utrium_bar"),
        ResourceType::LemergiumBar => reveal_strlit("lemergium_bar"),
        ResourceType::ZynthiumBar => reveal_strlit("zynthium_bar"),
        ResourceType::KeaniumBar => reveal_strlit("keanium_bar"),
        ResourceType::GhodiumMelt => reveal_strlit("ghodium_melt"),
        ResourceType::Oxidant => reveal_strlit("oxidant"),
        ResourceType::Reductant => reveal_strlit("reductant"),
        ResourceType::Purifier => reveal_strlit("purifier"),
        ResourceType::Battery => reveal_strlit("battery"),
        ResourceType::Composite => reveal_strlit("composite"),
        ResourceType::Crystal => reveal_strlit("crystal"),
        ResourceType::Liquid => reveal_strlit("liquid"),
        ResourceType::Wire => reveal_strlit("wire"),
        ResourceType::Switch => reveal_strlit("switch"),
        ResourceType::Transistor => reveal_strlit("transistor"),
        ResourceType::Microchip => reveal_strlit("microchip"),
        ResourceType::Circuit => reveal_strlit("circuit"),
        ResourceType::Device => reveal_strlit("device"),
        ResourceType::Cell => reveal_strlit("cell"),
        ResourceType::Phlegm => reveal_strlit("phlegm"),
        ResourceType::Tissue => reveal_strlit("tissue"),
        ResourceType::Muscle => reveal_strlit("muscle"),
        ResourceType::Organoid => reveal_strlit("organoid"),
        ResourceType::Organism => reveal_strlit("organism"),
        ResourceType::Alloy => reveal_strlit("alloy"),
        ResourceType::Tube => reveal_strlit("tube"),
        ResourceType::Fixtures => reveal_strlit("fixtures"),
        ResourceType::Frame => reveal_strlit("frame"),
        ResourceType::Hydraulics => reveal_strlit("hydraulics"),
        ResourceType::Machine => reveal_strlit("machine"),
        ResourceType::Condensate => reveal_strlit("condensate"),
        ResourceType::Concentrate => reveal_strlit("concentrate"),
        ResourceType::Extract => reveal_strlit("extract"),
        ResourceType::Spirit => reveal_strlit("spirit"),
        ResourceType::Emanation => reveal_strlit("emanation"),
        ResourceType::Essence => reveal_strlit("essence"),
    }
}

/// No two resource types share an in-game string.
pub proof fn lemma_resource_text_injective(a: ResourceType, b: ResourceType)
    requires
        resource_text(a) == resource_text(b),
    ensures
        a == b,
{
    lemma_resource_of_text(a);
    lemma_resource_of_text(b);
}

/// Every resource type, in the order they are declared.
fn all_resource_types() -> (r: Vec<ResourceType>)
    ensures
        forall|t: ResourceType| #[trigger] r@.contains(t),
{
    let r = vec![
        ResourceType::Energy,
        ResourceType::Power,
        ResourceType::Hydrogen,
        ResourceType::Oxygen,
        ResourceType::Utrium,
        ResourceType::Lemergium,
        ResourceType::Keanium,
        ResourceType::Zynthium,
        ResourceType::Catalyst,
        ResourceType::Ghodium,
        ResourceType::Silicon,
        ResourceType::Metal,
        ResourceType::Biomass,
        ResourceType::Mist,
        ResourceType::Hydroxide,
        ResourceType::ZynthiumKeanite,
        ResourceType::UtriumLemergite,
        ResourceType::UtriumHydride,
        ResourceType::UtriumOxide,
        ResourceType::KeaniumHydride,
        ResourceType::KeaniumOxide,
        ResourceType::LemergiumHydride,
        ResourceType::LemergiumOxide,
        ResourceType::ZynthiumHydride,
        ResourceType::ZynthiumOxide,
        ResourceType::GhodiumHydride,
        ResourceType::GhodiumOxide,
        ResourceType::UtriumAcid,
        ResourceType::UtriumAlkalide,
        ResourceType::KeaniumAcid,
        ResourceType::KeaniumAlkalide,
        ResourceType::LemergiumAcid,
        ResourceType::LemergiumAlkalide,
        ResourceType::ZynthiumAcid,
        ResourceType::ZynthiumAlkalide,
        ResourceType::GhodiumAcid,
        ResourceType::GhodiumAlkalide,
        ResourceType::CatalyzedUtriumAcid,
        ResourceType::CatalyzedUtriumAlkalide,
        ResourceType::CatalyzedKeaniumAcid,
        ResourceType::CatalyzedKeaniumAlkalide,
        ResourceType::CatalyzedLemergiumAcid,
        ResourceType::CatalyzedLemergiumAlkalide,
        ResourceType::CatalyzedZynthiumAcid,
        ResourceType::CatalyzedZynthiumAlkalide,
        ResourceType::CatalyzedGhodiumAcid,
        ResourceType::CatalyzedGhodiumAlkalide,
        ResourceType::Ops,
        ResourceType::UtriumBar,
        ResourceType::LemergiumBar,
        ResourceType::ZynthiumBar,
        ResourceType::KeaniumBar,
        ResourceType::GhodiumMelt,
        ResourceType::Oxidant,
        ResourceType::Reductant,
        ResourceType::Purifier,
        ResourceType::Battery,
        ResourceType::Composite,
        ResourceType::Crystal,
        ResourceType::Liquid,
        ResourceType::Wire,
        ResourceType::Switch,
        ResourceType::Transistor,
        ResourceType::Microchip,
        ResourceType::Circuit,
        ResourceType::Device,
        ResourceType::Cell,
        ResourceType::Phlegm,
        ResourceType::Tissue,
        ResourceType::Muscle,
        ResourceType::Organoid,
        ResourceType::Organism,
        ResourceType::Alloy,
        ResourceType::Tube,
        ResourceType::Fixtures,
        ResourceType::Frame,
        ResourceType::Hydraulics,
        ResourceType::Machine,
        ResourceType::Condensate,
        ResourceType::Concentrate,
        ResourceType::Extract,
        ResourceType::Spirit,
        ResourceType::Emanation,
        ResourceType::Essence,
    ];
    proof {
        assert forall|t: ResourceType| #[trigger] r@.contains(t) by {
            match t {
                ResourceType::Energy => assert(r@[0] == t),
                ResourceType::Power => assert(r@[1] == t),
                ResourceType::Hydrogen => assert(r@[2] == t),
                ResourceType::Oxygen => assert(r@[3] == t),
                ResourceType::Utrium => assert(r@[4] == t),
                ResourceType::Lemergium => assert(r@[5] == t),
                ResourceType::Keanium => assert(r@[6] == t),
                ResourceType::Zynthium => assert(r@[7] == t),
                ResourceType::Catalyst => assert(r@[8] == t),
                ResourceType::Ghodium => assert(r@[9] == t),
                ResourceType::Silicon => assert(r@[10] == t),
                ResourceType::Metal => assert(r@[11] == t),
                ResourceType::Biomass => assert(r@[12] == t),
                ResourceType::Mist => assert(r@[13] == t),
                ResourceType::Hydroxide => assert(r@[14] == t),
                ResourceType::ZynthiumKeanite => assert(r@[15] == t),
                ResourceType::UtriumLemergite => assert(r@[16] == t),
                ResourceType::UtriumHydride => assert(r@[17] == t),
                ResourceType::UtriumOxide => assert(r@[18] == t),
                ResourceType::KeaniumHydride => assert(r@[19] == t),
                ResourceType::KeaniumOxide => assert(r@[20] == t),
                ResourceType::LemergiumHydride => assert(r@[21] == t),
                ResourceType::LemergiumOxide => assert(r@[22] == t),
                ResourceType::ZynthiumHydride => assert(r@[23] == t),
                ResourceType::ZynthiumOxide => assert(r@[24] == t),
                ResourceType::GhodiumHydride => assert(r@[25] == t),
                ResourceType::GhodiumOxide => assert(r@[26] == t),
                ResourceType::UtriumAcid => assert(r@[27] == t),
                ResourceType::UtriumAlkalide => assert(r@[28] == t),
                ResourceType::KeaniumAcid => assert(r@[29] == t),
                ResourceType::KeaniumAlkalide => assert(r@[30] == t),
                ResourceType::LemergiumAcid => assert(r@[31] == t),
                ResourceType::LemergiumAlkalide => assert(r@[32] == t),
                ResourceType::ZynthiumAcid => assert(r@[33] == t),
                ResourceType::ZynthiumAlkalide => assert(r@[34] == t),
                ResourceType::GhodiumAcid => assert(r@[35] == t),
                ResourceType::GhodiumAlkalide => assert(r@[36] == t),
                ResourceType::CatalyzedUtriumAcid => assert(r@[37] == t),
                ResourceType::CatalyzedUtriumAlkalide => assert(r@[38] == t),
                ResourceType::CatalyzedKeaniumAcid => assert(r@[39] == t),
                ResourceType::CatalyzedKeaniumAlkalide => assert(r@[40] == t),
                ResourceType::CatalyzedLemergiumAcid => assert(r@[41] == t),
                ResourceType::CatalyzedLemergiumAlkalide => assert(r@[42] == t),
                ResourceType::CatalyzedZynthiumAcid => assert(r@[43] == t),
                ResourceType::CatalyzedZynthiumAlkalide => assert(r@[44] == t),
                ResourceType::CatalyzedGhodiumAcid => assert(r@[45] == t),
                ResourceType::CatalyzedGhodiumAlkalide => assert(r@[46] == t),
                ResourceType::Ops => assert(r@[47] == t),
                ResourceType::UtriumBar => assert(r@[48] == t),
                ResourceType::LemergiumBar => assert(r@[49] == t),
                ResourceType::ZynthiumBar => assert(r@[50] == t),
                ResourceType::KeaniumBar => assert(r@[51] == t),
                ResourceType::GhodiumMelt => assert(r@[52] == t),
                ResourceType::Oxidant => assert(r@[53] == t),
                ResourceType::Reductant => assert(r@[54] == t),
                ResourceType::Purifier => assert(r@[55] == t),
                ResourceType::Battery => assert(r@[56] == t),
                ResourceType::Composite => assert(r@[57] == t),
                ResourceType::Crystal => assert(r@[58] == t),
                ResourceType::Liquid => assert(r@[59] == t),
                ResourceType::Wire => assert(r@[60] == t),
                ResourceType::Switch => assert(r@[61] == t),
                ResourceType::Transistor => assert(r@[62] == t),
                ResourceType::Microchip => assert(r@[63] == t),
                ResourceType::Circuit => assert(r@[64] == t),
                ResourceType::Device => assert(r@[65] == t),
                ResourceType::Cell => assert(r@[66] == t),
                ResourceType::Phlegm => assert(r@[67] == t),
                ResourceType::Tissue => assert(r@[68] == t),
                ResourceType::Muscle => assert(r@[69] == t),
                ResourceType::Organoid => assert(r@[70] == t),
                ResourceType::Organism => assert(r@[71] == t),
                ResourceType::Alloy => assert(r@[72] == t),
                ResourceType::Tube => assert(r@[73] == t),
                ResourceType::Fixtures => assert(r@[74] == t),
                ResourceType::Frame => assert(r@[75] == t),
                ResourceType::Hydraulics => assert(r@[76] == t),
                ResourceType::Machine => assert(r@[77] == t),
                ResourceType::Condensate => assert(r@[78] == t),
                ResourceType::Concentrate => assert(r@[79] == t),
                ResourceType::Extract => assert(r@[80] == t),
                ResourceType::Spirit => assert(r@[81] == t),
                ResourceType::Emanation => assert(r@[82] == t),
                ResourceType::Essence => assert(r@[83] == t),
            }
        }
    }
    r
}

impl ResourceType {
    /// The resource type whose in-game string is `s`, such as `Utrium` for `"U"`; `None` when
    /// no resource type has that string.
    pub fn from_resource_string(s: &str) -> (r: Option<ResourceType>)
        ensures
            match r {
                Some(t) => resource_text(t) == s@,
                None => forall|t: ResourceType| resource_text(t) != s@,
            },
    {
        let cs = chars_of(s);
        let all = all_resource_types();
        let mut i: usize = 0;
        while i < all.len()
            invariant
                cs@ == s@,
                i <= all@.len(),
                forall|t: ResourceType| #[trigger] all@.contains(t),
                forall|j: int| 0 <= j < i ==> resource_text(#[trigger] all@[j]) != s@,
            decreases all.len() - i,
        {
            let t = all[i];
            if segment_equals(&cs, 0, cs.len(), t.to_resource_string()) {
                assert(cs@.subrange(0, cs@.len() as int) =~= cs@);
                return Some(t);
            }
            assert(cs@.subrange(0, cs@.len() as int) =~= cs@);
            i += 1;
        }
        proof {
            assert forall|t: ResourceType| resource_text(t) != s@ by {
                assert(all@.contains(t));
                let j = choose|j: int| 0 <= j < all@.len() && all@[j] == t;
                assert(resource_text(all@[j]) != s@);
            }
        }
        None
    }
}

/// The amount that the entries `e` (searched from the back) give for `k`.
pub open spec fn lookup(e: Seq<(ResourceType, i32)>, k: ResourceType) -> Option<i32>
    decreases e.len(),
{
    if e.len() == 0 {
        None
    } else if e.last().0 == k {
        Some(e.last().1)
    } else {
        lookup(e.drop_last(), k)
    }
}

/// The map from resource type to amount that the entries `e` describe.
pub open spec fn entries_map(e: Seq<(ResourceType, i32)>) -> Map<ResourceType, i32> {
    Map::new(|k: ResourceType| lookup(e, k) is Some, |k: ResourceType| lookup(e, k)->0)
}

/// No resource type occurs twice among the entries `e`.
pub open spec fn distinct_keys(e: Seq<(ResourceType, i32)>) -> bool {
    forall|i: int, j: int| 0 <= i < j < e.len() ==> e[i].0 != e[j].0
}

proof fn lemma_lookup_push(e: Seq<(ResourceType, i32)>, p: (ResourceType, i32), k: ResourceType)
    ensures
        lookup(e.push(p), k) == (if p.0 == k {
            Some(p.1)
        } else {
            lookup(e, k)
        }),
{
    assert(e.push(p).drop_last() =~= e);
}

proof fn lemma_lookup_absent(e: Seq<(ResourceType, i32)>, k: ResourceType)
    requires
        forall|i: int| 0 <= i < e.len() ==> e[i].0 != k,
    ensures
        lookup(e, k) is None,
    decreases e.len(),
{
    if e.len() > 0 {
        assert(e.last() == e[e.len() - 1]);
        lemma_lookup_absent(e.drop_last(), k);
    }
}

proof fn lemma_lookup_index(e: Seq<(ResourceType, i32)>, i: int)
    requires
        distinct_keys(e),
        0 <= i < e.len(),
    ensures
        lookup(e, e[i].0) == Some(e[i].1),
    decreases e.len(),
{
    if i < e.len() - 1 {
        assert(e.drop_last()[i] == e[i]);
        lemma_lookup_index(e.drop_last(), i);
    }
}

proof fn lemma_lookup_update(e: Seq<(ResourceType, i32)>, i: int, v: i32, j: ResourceType)
    requires
        distinct_keys(e),
        0 <= i < e.len(),
    ensures
        lookup(e.update(i, (e[i].0, v)), j) == (if j == e[i].0 {
            Some(v)
        } else {
            lookup(e, j)
        }),
    decreases e.len(),
{
    let k = e[i].0;
    let f = e.update(i, (k, v));
    if i == e.len() - 1 {
        assert(f.drop_last() =~= e.drop_last());
    } else {
        assert(f.drop_last() =~= e.drop_last().update(i, (k, v)));
        assert(e.drop_last()[i] == e[i]);
        lemma_lookup_update(e.drop_last(), i, v, j);
    }
}

proof fn lemma_lookup_remove(e: Seq<(ResourceType, i32)>, i: int, j: ResourceType)
    requires
        distinct_keys(e),
        0 <= i < e.len(),
    ensures
        lookup(e.remove(i), j) == (if j == e[i].0 {
            None
        } else {
            lookup(e, j)
        }),
    decreases e.len(),
{
    let k = e[i].0;
    let f = e.remove(i);
    if i == e.len() - 1 {
        assert(f =~= e.drop_last());
        if j == k {
            lemma_lookup_absent(e.drop_last(), k);
        }
    } else {
        assert(f.drop_last() =~= e.drop_last().remove(i));
        assert(f.last() == e.last());
        assert(e.drop_last()[i] == e[i]);
        lemma_lookup_remove(e.drop_last(), i, j);
    }
}

proof fn lemma_lookup_found(e: Seq<(ResourceType, i32)>, k: ResourceType) -> (j: int)
    requires
        lookup(e, k) is Some,
    ensures
        0 <= j < e.len(),
        e[j].0 == k,
    decreases e.len(),
{
    if e.last().0 == k {
        e.len() - 1
    } else {
        let j = lemma_lookup_found(e.drop_last(), k);
        assert(e.drop_last()[j] == e[j]);
        j
    }
}

/// Amounts of resources, keyed by resource type.
#[derive(Debug)]
pub struct ResourceAmounts {
    entries: Vec<(ResourceType, i32)>,
}

impl ResourceAmounts {
    #[verifier::type_invariant]
    closed spec fn wf(self) -> bool {
        distinct_keys(self.entries@)
    }
}

impl View for ResourceAmounts {
    type V = Map<ResourceType, i32>;

    closed spec fn view(&self) -> Map<ResourceType, i32> {
        entries_map(self.entries@)
    }
}

/// The amount a map of amounts gives for `k`, if any.
pub open spec fn amount_of(m: Map<ResourceType, i32>, k: ResourceType) -> Option<i32> {
    if m.contains_key(k) {
        Some(m[k])
    } else {
        None
    }
}

impl ResourceAmounts {
    /// No amounts at all.
    pub fn new() -> (r: Self)
        ensures
            r@ == Map::<ResourceType, i32>::empty(),
    {
        let r = ResourceAmounts { entries: Vec::new() };
        assert(r@ =~= Map::<ResourceType, i32>::empty());
        r
    }

    fn find(&self, k: ResourceType) -> (r: Option<usize>)
        ensures
            match r {
                Some(i) => i < self.entries@.len() && self.entries@[i as int].0 == k,
                None => forall|i: int| 0 <= i < self.entries@.len() ==> self.entries@[i].0 != k,
            },
    {
        let mut i: usize = 0;
        while i < self.entries.len()
            invariant
                i <= self.entries@.len(),
                forall|j: int| 0 <= j < i ==> self.entries@[j].0 != k,
            decreases self.entries.len() - i,
        {
            if self.entries[i].0 == k {
                return Some(i);
            }
            i += 1;
        }
        None
    }

    /// The amount held for `k`, if any.
    pub fn get(&self, k: ResourceType) -> (r: Option<i32>)
        ensures
            r == amount_of(self@, k),
    {
        proof {
            use_type_invariant(self);
        }
        match self.find(k) {
            Some(i) => {
                proof {
                    lemma_lookup_index(self.entries@, i as int);
                }
                Some(self.entries[i].1)
            },
            None => {
                proof {
                    lemma_lookup_absent(self.entries@, k);
                }
                None
            },
        }
    }

    /// Sets the amount for `k` to `v`, giving back the amount it replaced.
    pub fn insert(&mut self, k: ResourceType, v: i32) -> (r: Option<i32>)
        ensures
            final(self)@ == old(self)@.insert(k, v),
            r == amount_of(old(self)@, k),
    {
        proof {
            use_type_invariant(&*self);
        }
        let ghost e = self.entries@;
        match self.find(k) {
            Some(i) => {
                proof {
                    lemma_lookup_index(e, i as int);
                }
                let old_value = self.entries[i].1;
                let mut entries: Vec<(ResourceType, i32)> = Vec::new();
                std::mem::swap(&mut entries, &mut self.entries);
                entries.set(i, (k, v));
                proof {
                    assert(entries@ == e.update(i as int, (e[i as int].0, v)));
                    assert forall|a: int, b: int| 0 <= a < b < entries@.len() implies entries@[a].0
                        != entries@[b].0 by {
                        assert(e[a].0 != e[b].0);
                    }
                    assert forall|j: ResourceType| #[trigger] lookup(entries@, j) == (if j == k {
                        Some(v)
                    } else {
                        lookup(e, j)
                    }) by {
                        lemma_lookup_update(e, i as int, v, j);
                    }
                }
                self.entries = entries;
                assert(self@ =~= old(self)@.insert(k, v));
                Some(old_value)
            },
            None => {
                proof {
                    lemma_lookup_absent(e, k);
                }
                let mut entries: Vec<(ResourceType, i32)> = Vec::new();
                std::mem::swap(&mut entries, &mut self.entries);
                entries.push((k, v));
                proof {
                    assert(entries@ == e.push((k, v)));
                    assert forall|a: int, b: int| 0 <= a < b < entries@.len() implies entries@[a].0
                        != entries@[b].0 by {
                        if b < e.len() {
                            assert(e[a].0 != e[b].0);
                        }
                    }
                    assert forall|j: ResourceType| #[trigger] lookup(entries@, j) == (if j == k {
                        Some(v)
                    } else {
                        lookup(e, j)
                    }) by {
                        lemma_lookup_push(e, (k, v), j);
                    }
                }
                self.entries = entries;
                assert(self@ =~= old(self)@.insert(k, v));
                None
            },
        }
    }

    /// Removes the amount for `k`, giving it back.
    pub fn remove(&mut self, k: ResourceType) -> (r: Option<i32>)
        ensures
            final(self)@ == old(self)@.remove(k),
            r == amount_of(old(self)@, k),
    {
        proof {
            use_type_invariant(&*self);
        }
        let ghost e = self.entries@;
        match self.find(k) {
            Some(i) => {
                proof {
                    lemma_lookup_index(e, i as int);
                }
                let mut entries: Vec<(ResourceType, i32)> = Vec::new();
                std::mem::swap(&mut entries, &mut self.entries);
                let (_, old_value) = entries.remove(i);
                proof {
                    assert(entries@ == e.remove(i as int));
                    assert forall|a: int, b: int| 0 <= a < b < entries@.len() implies entries@[a].0
                        != entries@[b].0 by {
                        if a < i {
                            if b < i {
                                assert(e[a].0 != e[b].0);
                            } else {
                                assert(e[a].0 != e[b + 1].0);
                            }
                        } else {
                            assert(e[a + 1].0 != e[b + 1].0);
                        }
                    }
                    assert forall|j: ResourceType| #[trigger] lookup(entries@, j) == (if j == k {
                        None
                    } else {
                        lookup(e, j)
                    }) by {
                        lemma_lookup_remove(e, i as int, j);
                    }
                }
                self.entries = entries;
                assert(self@ =~= old(self)@.remove(k));
                Some(old_value)
            },
            None => {
                proof {
                    lemma_lookup_absent(e, k);
                }
                assert(self@ =~= old(self)@.remove(k));
                None
            },
        }
    }

    /// Every resource type with its amount, each once.
    pub fn entries(&self) -> (r: Vec<(ResourceType, i32)>)
        ensures
            distinct_keys(r@),
            entries_map(r@) == self@,
    {
        proof {
            use_type_invariant(self);
        }
        let mut r: Vec<(ResourceType, i32)> = Vec::new();
        let mut i: usize = 0;
        while i < self.entries.len()
            invariant
                i <= self.entries@.len(),
                r@ == self.entries@.take(i as int),
            decreases self.entries.len() - i,
        {
            r.push(self.entries[i]);
            i += 1;
            assert(r@ =~= self.entries@.take(i as int));
        }
        assert(r@ =~= self.entries@);
        r
    }
}


impl ResourceAmounts {
    /// Whether this holds every amount that `other` holds, for the same resource type.
    fn includes(&self, other: &Self) -> (r: bool)
        ensures
            r <==> (forall|k: ResourceType| #[trigger]
                other@.contains_key(k) ==> self@.contains_key(k) && self@[k] == other@[k]),
    {
        let es = other.entries();
        let mut i: usize = 0;
        while i < es.len()
            invariant
                i <= es@.len(),
                distinct_keys(es@),
                entries_map(es@) == other@,
                forall|j: int| #![trigger es@[j]]
                    0 <= j < i ==> amount_of(self@, es@[j].0) == Some(es@[j].1),
            decreases es.len() - i,
        {
            let (k, v) = es[i];
            match self.get(k) {
                Some(w) => {
                    if w != v {
                        proof {
                            lemma_lookup_index(es@, i as int);
                            assert(entries_map(es@).contains_key(k));
                            assert(other@[k] == v);
                        }
                        return false;
                    }
                },
                None => {
                    proof {
                        lemma_lookup_index(es@, i as int);
                        assert(entries_map(es@).contains_key(k));
                    }
                    return false;
                },
            }
            assert(amount_of(self@, es@[i as int].0) == Some(es@[i as int].1));
            i += 1;
        }
        proof {
            assert forall|k: ResourceType| #[trigger] other@.contains_key(k) implies self@.contains_key(
                k,
            ) && self@[k] == other@[k] by {
                let j = lemma_lookup_found(es@, k);
                lemma_lookup_index(es@, j);
                assert(es@[j].0 == k);
            }
        }
        true
    }
}

impl PartialEq for ResourceAmounts {
    fn eq(&self, other: &Self) -> (r: bool) {
        let r = self.includes(other) && other.includes(self);
        proof {
            if r {
                assert(self@ =~= other@);
            }
        }
        r
    }
}

impl vstd::std_specs::cmp::PartialEqSpecImpl for ResourceAmounts {
    open spec fn obeys_eq_spec() -> bool {
        true
    }

    open spec fn eq_spec(&self, other: &Self) -> bool {
        self@ == other@
    }
}

impl Eq for ResourceAmounts {
}

impl Clone for ResourceAmounts {
    fn clone(&self) -> (r: Self)
        ensures
            r@ == self@,
    {
        ResourceAmounts { entries: self.entries() }
    }
}

} // verus!
