//! The equipment catalogue the store is seeded with: unclassified, publicly sourced
//! reference data on individual kit, weapons, vehicles, optics and communications
//! equipment in Canadian Armed Forces service.
use vstd::prelude::*;
use crate::models::equipment::{EquipmentCategory, ServiceBranch, EquipmentStatus};

verus! {

/// One equipment item of the catalogue.
pub struct CatalogueItem {
    pub common_name: String,
    pub official_designation: String,
    pub category: EquipmentCategory,
    pub manufacturer: String,
    pub country_of_origin: String,
    pub service_branch: ServiceBranch,
    pub status: EquipmentStatus,
    pub introduction_year: Option<i32>,
    pub notes: String,
}

/// One variant of the catalogue, linked to its item by the item's common name.
pub struct CatalogueVariant {
    pub equipment_name: String,
    pub variant_name: String,
    pub calibre_or_spec: Option<String>,
    pub compatible_accessories: Option<String>,
    pub notes: String,
}

/// The texts of an optional text.
pub open spec fn opt_view(t: Option<String>) -> Option<Seq<char>> {
    match t {
        Some(s) => Some(s@),
        None => None,
    }
}

/// `c` holds the given texts and values.
pub open spec fn item_is(
    c: CatalogueItem,
    common_name: Seq<char>,
    official_designation: Seq<char>,
    category: EquipmentCategory,
    manufacturer: Seq<char>,
    country_of_origin: Seq<char>,
    service_branch: ServiceBranch,
    status: EquipmentStatus,
    introduction_year: Option<i32>,
    notes: Seq<char>,
) -> bool {
    &&& c.common_name@ == common_name
    &&& c.official_designation@ == official_designation
    &&& c.category == category
    &&& c.manufacturer@ == manufacturer
    &&& c.country_of_origin@ == country_of_origin
    &&& c.service_branch == service_branch
    &&& c.status == status
    &&& c.introduction_year == introduction_year
    &&& c.notes@ == notes
}

/// `v` holds the given texts.
pub open spec fn variant_is(
    v: CatalogueVariant,
    equipment_name: Seq<char>,
    variant_name: Seq<char>,
    calibre_or_spec: Option<Seq<char>>,
    compatible_accessories: Option<Seq<char>>,
    notes: Seq<char>,
) -> bool {
    &&& v.equipment_name@ == equipment_name
    &&& v.variant_name@ == variant_name
    &&& opt_view(v.calibre_or_spec) == calibre_or_spec
    &&& opt_view(v.compatible_accessories) == compatible_accessories
    &&& v.notes@ == notes
}
/// The equipment items of the catalogue, in order.
pub open spec fn catalogue_items_are(s: Seq<CatalogueItem>) -> bool {
    &&& s.len() == 34
    &&& item_is(s[0], "C7A2 Rifle"@, "Rifle, 5.56mm, C7A2"@, EquipmentCategory::Weapon, "Colt Canada"@, "Canada"@, ServiceBranch::Army, EquipmentStatus::InService, Some(2004i32),
        "Primary service rifle of the CAF. Features flat-top upper receiver, full-length rail, and collapsible stock."@)
    &&& item_is(s[1], "C8A3 Carbine"@, "Carbine, 5.56mm, C8A3"@, EquipmentCategory::Weapon, "Colt Canada"@, "Canada"@, ServiceBranch::Army, EquipmentStatus::InService, Some(2019i32),
        "Compact carbine variant; primary weapon for vehicle crews, special operations, and certain support trades."@)
    &&& item_is(s[2], "C9A2 Light Machine Gun"@, "Machine Gun, Light, 5.56mm, C9A2"@, EquipmentCategory::Weapon, "Colt Canada"@, "Canada"@, ServiceBranch::Army, EquipmentStatus::InService, Some(2006i32),
        "Section-level light support weapon. Fires standard 5.56×45mm NATO ammunition from a 200-round drum or linked belt."@)
    &&& item_is(s[3], "C6A1 General Purpose Machine Gun"@, "Machine Gun, General Purpose, 7.62mm, C6A1"@, EquipmentCategory::Weapon, "FN Herstal"@, "Belgium"@, ServiceBranch::Army, EquipmentStatus::InService, Some(1985i32),
        "GPMG based on the FN MAG. Used at platoon / company fire support and as a vehicle-mounted weapon."@)
    &&& item_is(s[4], "C14 Timberwolf Sniper Rifle"@, "Rifle, Sniper, 0.338in, C14"@, EquipmentCategory::Weapon, "PGW Defence Technologies"@, "Canada"@, ServiceBranch::Army, EquipmentStatus::InService, Some(2005i32),
        "Long-range bolt-action sniper rifle chambered in .338 Lapua Magnum."@)
    &&& item_is(s[5], "C15 Long Range Sniper Weapon"@, "Rifle, Sniper, 0.50in, C15"@, EquipmentCategory::Weapon, "McMillan Firearms"@, "United States"@, ServiceBranch::Army, EquipmentStatus::InService, Some(2000i32),
        "Anti-materiel / long-range sniper weapon chambered in .50 BMG."@)
    &&& item_is(s[6], "C7 Grenade Launcher (M203)"@, "Grenade Launcher, 40mm, C16"@, EquipmentCategory::Weapon, "Colt Canada"@, "Canada"@, ServiceBranch::Army, EquipmentStatus::InService, Some(1995i32),
        "Under-barrel grenade launcher for C7/C8 family. Fires 40×46mm low-velocity grenades."@)
    &&& item_is(s[7], "Browning Hi-Power Pistol"@, "Pistol, 9mm, Browning Hi-Power"@, EquipmentCategory::Weapon, "FN Herstal"@, "Belgium"@, ServiceBranch::Joint, EquipmentStatus::Legacy, Some(1944i32),
        "Standard service pistol for decades; being replaced by the SIG Sauer P320-M17/M18."@)
    &&& item_is(s[8], "SIG Sauer P320 Pistol"@, "Pistol, 9mm, P320-M17"@, EquipmentCategory::Weapon, "SIG Sauer"@, "Germany/United States"@, ServiceBranch::Joint, EquipmentStatus::InService, Some(2022i32),
        "Modular striker-fired pistol replacing the Browning Hi-Power across the CAF."@)
    &&& item_is(s[9], "M72 LAW"@, "Rocket Launcher, 66mm, M72"@, EquipmentCategory::Weapon, "Nammo Talley"@, "United States"@, ServiceBranch::Army, EquipmentStatus::InService, Some(1970i32),
        "Single-shot, disposable anti-armour rocket. Widely distributed to infantry sections."@)
    &&& item_is(s[10], "Carl Gustaf Recoilless Rifle"@, "Recoilless Rifle, 84mm, M3 Carl Gustaf"@, EquipmentCategory::Weapon, "Saab Bofors Dynamics"@, "Sweden"@, ServiceBranch::Army, EquipmentStatus::InService, Some(1991i32),
        "Multi-role, man-portable recoilless rifle. Fires a variety of 84mm rounds including anti-armour, HE, and illumination."@)
    &&& item_is(s[11], "C79 Optical Sight"@, "Sight, Optical, C79A2"@, EquipmentCategory::Optic, "Elcan Optical Technologies"@, "Canada"@, ServiceBranch::Army, EquipmentStatus::InService, Some(1987i32),
        "3.4× magnification optical sight for the C7/C8 family. NATO STANAG 4694 rail-compatible."@)
    &&& item_is(s[12], "Elcan Specter DR"@, "Sight, Optical, Specter DR"@, EquipmentCategory::Optic, "Elcan Optical Technologies"@, "Canada"@, ServiceBranch::Army, EquipmentStatus::InService, Some(2006i32),
        "Dual-role 1× / 4× optical sight. Provides rapid switch between close-quarters and medium-range engagement."@)
    &&& item_is(s[13], "AN/PVS-14 Night Vision Monocular"@, "Monocular, Night Vision, AN/PVS-14"@, EquipmentCategory::Optic, "L3Harris Technologies"@, "United States"@, ServiceBranch::Joint, EquipmentStatus::InService, Some(2000i32),
        "Gen III image-intensified NVG monocular. Can be head-mounted or weapon-mounted."@)
    &&& item_is(s[14], "AN/PEQ-2 Laser Aiming Device"@, "Target Pointer/Illuminator/Aiming Laser, AN/PEQ-2"@, EquipmentCategory::Optic, "L3Harris Technologies"@, "United States"@, ServiceBranch::Army, EquipmentStatus::InService, Some(1999i32),
        "Infrared and visible laser aiming device for use with NVG or unaided. Rail-mounted on C7/C8 family."@)
    &&& item_is(s[15], "LSVW (G-Wagon)"@, "Vehicle, Light Support, Wheeled (LSVW)"@, EquipmentCategory::Vehicle, "Mercedes-Benz (Daimler-Chrysler)"@, "Germany"@, ServiceBranch::Army, EquipmentStatus::InService, Some(1993i32),
        "Light utility / patrol vehicle. Variants include soft-top, hard-top, and ambulance. 4×4."@)
    &&& item_is(s[16], "LAV 6.0"@, "Vehicle, Armoured, Light, LAV 6.0"@, EquipmentCategory::Vehicle, "General Dynamics Land Systems – Canada"@, "Canada"@, ServiceBranch::Army, EquipmentStatus::InService, Some(2017i32),
        "8×8 wheeled armoured vehicle. Primary fighting vehicle for Royal Canadian Armoured Corps reconnaissance and mechanized infantry."@)
    &&& item_is(s[17], "Leopard 2A4 / 2A6M CAN"@, "Tank, Main Battle, Leopard 2"@, EquipmentCategory::Vehicle, "Krauss-Maffei Wegmann"@, "Germany"@, ServiceBranch::Army, EquipmentStatus::InService, Some(2007i32),
        "120mm smoothbore-armed MBT. CAF operates A4 and upgraded A6M CAN variants."@)
    &&& item_is(s[18], "M113 APC"@, "Carrier, Personnel, Armoured, M113"@, EquipmentCategory::Vehicle, "BAE Systems"@, "United States"@, ServiceBranch::Army, EquipmentStatus::Legacy, Some(1964i32),
        "Tracked APC; still operated in limited numbers by reserve and training units."@)
    &&& item_is(s[19], "RG-31 Nyala MRAP"@, "Vehicle, Patrol, Protected, RG-31 Nyala"@, EquipmentCategory::Vehicle, "BAE Systems / Land Systems OMC"@, "South Africa"@, ServiceBranch::Army, EquipmentStatus::Limited, Some(2006i32),
        "Mine-resistant ambush-protected patrol vehicle used during Afghanistan operations."@)
    &&& item_is(s[20], "MLVW"@, "Vehicle, Logistics, Medium, Wheeled (MLVW)"@, EquipmentCategory::Vehicle, "Mercedes-Benz"@, "Germany"@, ServiceBranch::Army, EquipmentStatus::Legacy, Some(1982i32),
        "2.5-tonne utility truck. Being replaced by the MILCOTS fleet."@)
    &&& item_is(s[21], "M777 Howitzer"@, "Howitzer, 155mm, M777"@, EquipmentCategory::Vehicle, "BAE Systems"@, "United Kingdom/United States"@, ServiceBranch::Army, EquipmentStatus::InService, Some(2005i32),
        "Lightweight 155mm towed howitzer. Air-transportable by CH-147F Chinook."@)
    &&& item_is(s[22], "PRC-152A Handheld Radio"@, "Radio Set, Manpack, AN/PRC-152A"@, EquipmentCategory::Comms, "Harris Corporation (L3Harris)"@, "United States"@, ServiceBranch::Joint, EquipmentStatus::InService, Some(2010i32),
        "Multi-band tactical handheld radio with wideband networking capability."@)
    &&& item_is(s[23], "PRC-117G Manpack Radio"@, "Radio Set, Manpack, AN/PRC-117G"@, EquipmentCategory::Comms, "Harris Corporation (L3Harris)"@, "United States"@, ServiceBranch::Joint, EquipmentStatus::InService, Some(2010i32),
        "Wideband manpack radio with SATCOM capability. Supports SINCGARS and HF."@)
    &&& item_is(s[24], "VRC-99 Vehicle Radio"@, "Radio Set, Vehicular, AN/VRC-99"@, EquipmentCategory::Comms, "Harris Corporation (L3Harris)"@, "United States"@, ServiceBranch::Army, EquipmentStatus::InService, Some(2008i32),
        "Vehicle-mounted multi-band radio for armoured and wheeled platforms."@)
    &&& item_is(s[25], "C2 Composite Body Armour"@, "Armour, Body, Composite, C2"@, EquipmentCategory::Clothing, "Various (DHC contract)"@, "Canada"@, ServiceBranch::Joint, EquipmentStatus::InService, Some(2006i32),
        "Modular plate-carrier system with SAPI plates. Replaces the older IBAS."@)
    &&& item_is(s[26], "CADPAT TW Uniform"@, "Uniform, Disruptive Pattern, CADPAT (Temperate Woodland)"@, EquipmentCategory::Clothing, "Various (DHC contract)"@, "Canada"@, ServiceBranch::Joint, EquipmentStatus::InService, Some(2002i32),
        "Standard combat uniform in CADPAT Temperate Woodland pattern. First digitally generated camouflage pattern in NATO service."@)
    &&& item_is(s[27], "CADPAT AR Uniform"@, "Uniform, Disruptive Pattern, CADPAT (Arid Regions)"@, EquipmentCategory::Clothing, "Various (DHC contract)"@, "Canada"@, ServiceBranch::Joint, EquipmentStatus::InService, Some(2002i32),
        "CADPAT Arid Regions pattern for desert and semi-arid operations."@)
    &&& item_is(s[28], "CF98 Combat Boots"@, "Boots, Combat, CF98"@, EquipmentCategory::Clothing, "Various (DHC contract)"@, "Canada"@, ServiceBranch::Joint, EquipmentStatus::InService, Some(1998i32),
        "Standard issue leather/nylon combat boot."@)
    &&& item_is(s[29], "C8 Cleaning Kit"@, "Kit, Cleaning, 5.56mm Rifle/Carbine"@, EquipmentCategory::CES, "Various"@, "Canada"@, ServiceBranch::Army, EquipmentStatus::InService, None,
        "Complete equipment schedule cleaning kit for C7/C8 family weapons."@)
    &&& item_is(s[30], "C6 Cleaning / Spare Parts Kit"@, "Kit, Cleaning and Spare Parts, 7.62mm GPMG"@, EquipmentCategory::CES, "Various"@, "Belgium"@, ServiceBranch::Army, EquipmentStatus::InService, None,
        "CES for the C6 GPMG; includes spare bolt, barrel, and cleaning tools."@)
    &&& item_is(s[31], "ILBE Rucksack"@, "Pack, Assault, ILBE"@, EquipmentCategory::CES, "Arc'teryx LEAF / Various"@, "Canada"@, ServiceBranch::Joint, EquipmentStatus::InService, Some(2010i32),
        "Integrated Load Bearing Equipment assault rucksack. Part of the CADPAT personal kit system."@)
    &&& item_is(s[32], "5.56×45mm Ball Ammunition (C77)"@, "Cartridge, 5.56mm Ball, C77"@, EquipmentCategory::Ammunition, "Various NATO suppliers"@, "Canada/NATO"@, ServiceBranch::Joint, EquipmentStatus::InService, Some(1985i32),
        "Standard 5.56×45mm NATO ball ammunition for C7/C8/C9 family."@)
    &&& item_is(s[33], "7.62×51mm Ball Ammunition"@, "Cartridge, 7.62mm Ball, C21"@, EquipmentCategory::Ammunition, "Various NATO suppliers"@, "Canada/NATO"@, ServiceBranch::Joint, EquipmentStatus::InService, Some(1960i32),
        "Standard 7.62×51mm NATO ball for C6 GPMG and C14 (not for sniper use)."@)
}

/// The variants of the catalogue, in order.
pub open spec fn catalogue_variants_are(s: Seq<CatalogueVariant>) -> bool {
    &&& s.len() == 19
    &&& variant_is(s[0], "C7A2 Rifle"@, "C7A2 (Base)"@, Some("5.56×45mm NATO"@), Some("C79A2, AN/PEQ-2, AN/PVS-14, C16 UGL, foregrip"@),
        "Standard configuration, iron sights. 18.6\" barrel, 40-round magazine."@)
    &&& variant_is(s[1], "C7A2 Rifle"@, "C7A2 + C79A2 Optic"@, Some("5.56×45mm NATO"@), Some("AN/PEQ-2, AN/PVS-14, C16 UGL, foregrip"@),
        "Standard section commander / rifleman configuration with 3.4× C79A2 optical sight."@)
    &&& variant_is(s[2], "C7A2 Rifle"@, "C7A2 + C79A2 + C16 UGL"@, Some("5.56×45mm NATO / 40×46mm HV"@), Some("AN/PEQ-2, AN/PVS-14, foregrip"@),
        "Grenadier configuration. C16 (M203) grenade launcher fitted under barrel."@)
    &&& variant_is(s[3], "C8A3 Carbine"@, "C8A3 (Base)"@, Some("5.56×45mm NATO"@), Some("C79A2, Elcan Specter DR, AN/PEQ-2, AN/PVS-14"@),
        "Short-barrel carbine; 14.5\" barrel, collapsible stock."@)
    &&& variant_is(s[4], "C8A3 Carbine"@, "C8A3 + Specter DR"@, Some("5.56×45mm NATO"@), Some("AN/PEQ-2, AN/PVS-14, suppressor"@),
        "Common SOF/recce configuration with dual-role Elcan Specter DR (1× / 4×)."@)
    &&& variant_is(s[5], "C9A2 Light Machine Gun"@, "C9A2 (Base)"@, Some("5.56×45mm NATO"@), Some("C79A2, AN/PVS-14, bipod (integral)"@),
        "Section light support. Integral bipod, 200-round drum or belt-fed."@)
    &&& variant_is(s[6], "C6A1 General Purpose Machine Gun"@, "C6A1 (Dismounted / LMG Role)"@, Some("7.62×51mm NATO"@), Some("Bipod, AN/PVS-14"@),
        "Dismounted medium machine gun configuration, shoulder-fired or bipod-mounted."@)
    &&& variant_is(s[7], "C6A1 General Purpose Machine Gun"@, "C6A1 (Vehicle-Mounted)"@, Some("7.62×51mm NATO"@), Some("Vehicle pintle mount, T&E mechanism, ammo box"@),
        "Vehicle co-axial or pintle-mounted configuration."@)
    &&& variant_is(s[8], "C79 Optical Sight"@, "C79A2"@, Some("3.4× magnification"@), Some("C7A2, C8A3, C9A2"@),
        "Current production variant with integral tritium illumination for reticle."@)
    &&& variant_is(s[9], "AN/PVS-14 Night Vision Monocular"@, "AN/PVS-14 (Head-Mounted)"@, Some("Gen III, 1× to 3× magnification"@), Some("Rhino arm mount, PASGT/MICH helmet mount, dioptre kit"@),
        "Standard head-mount configuration with rhino arm for helmet attachment."@)
    &&& variant_is(s[10], "AN/PVS-14 Night Vision Monocular"@, "AN/PVS-14 (Weapon-Mounted)"@, Some("Gen III"@), Some("Picatinny rail mount, weapon mount adapter"@),
        "Weapon-mounted configuration used in conjunction with AN/PEQ-2."@)
    &&& variant_is(s[11], "Elcan Specter DR"@, "Specter DR (5.56mm BDC)"@, Some("1× / 4× switchable"@), Some("C8A3, C7A2"@),
        "Ballistic drop compensator reticle optimised for 5.56×45mm."@)
    &&& variant_is(s[12], "LSVW (G-Wagon)"@, "LSVW Soft-Top"@, Some("2.9L diesel, 4×4"@), Some("Pintle mount, radio rack, CES"@),
        "Open-top general purpose variant."@)
    &&& variant_is(s[13], "LSVW (G-Wagon)"@, "LSVW Hard-Top"@, Some("2.9L diesel, 4×4"@), Some("Pintle mount, radio rack, CES"@),
        "Enclosed variant for command, signals, and protection."@)
    &&& variant_is(s[14], "LAV 6.0"@, "LAV 6.0 IFV"@, Some("25mm M242 Bushmaster cannon"@), Some("C6A1 co-ax, commander's sight, FLIR"@),
        "Infantry fighting vehicle variant with two-person turret."@)
    &&& variant_is(s[15], "LAV 6.0"@, "LAV 6.0 APC"@, Some("12.7mm M2HB or C6A1"@), Some("Pintle mount, ERA kit"@),
        "Armoured personnel carrier variant without turret."@)
    &&& variant_is(s[16], "PRC-152A Handheld Radio"@, "AN/PRC-152A (Handheld)"@, Some("30–512 MHz"@), Some("Headset, MBITR antenna, speaker-mic, Pelican case"@),
        "Standard configuration for section-level communications."@)
    &&& variant_is(s[17], "C2 Composite Body Armour"@, "C2 (Level III+, TW)"@, Some("SAPI ceramic/polyethylene plates"@), Some("Groin protector, collar, shoulder guards, deltoid"@),
        "Full modular configuration with temperate woodland soft armour carrier."@)
    &&& variant_is(s[18], "C2 Composite Body Armour"@, "C2 (Minimum Configuration)"@, Some("Front/rear SAPI plates only"@), Some("Plate carrier only"@),
        "Minimum force-protection configuration for lower-threat environments."@)
}

/// A catalogue item from its texts and values.
fn catalogue_item(
    common_name: &str,
    official_designation: &str,
    category: EquipmentCategory,
    manufacturer: &str,
    country_of_origin: &str,
    service_branch: ServiceBranch,
    status: EquipmentStatus,
    introduction_year: Option<i32>,
    notes: &str,
) -> (r: CatalogueItem)
    ensures
        item_is(r, common_name@, official_designation@, category, manufacturer@, country_of_origin@,
            service_branch, status, introduction_year, notes@),
{
    CatalogueItem {
        common_name: common_name.to_string(),
        official_designation: official_designation.to_string(),
        category,
        manufacturer: manufacturer.to_string(),
        country_of_origin: country_of_origin.to_string(),
        service_branch,
        status,
        introduction_year,
        notes: notes.to_string(),
    }
}

/// An optional text from an optional literal.
fn opt_string(t: Option<&str>) -> (r: Option<String>)
    ensures
        opt_view(r) == match t {
            Some(s) => Some(s@),
            None => None::<Seq<char>>,
        },
{
    match t {
        Some(s) => Some(s.to_string()),
        None => None,
    }
}

/// A catalogue variant from its texts.
fn catalogue_variant(
    equipment_name: &str,
    variant_name: &str,
    calibre_or_spec: Option<&str>,
    compatible_accessories: Option<&str>,
    notes: &str,
) -> (r: CatalogueVariant)
    ensures
        variant_is(r, equipment_name@, variant_name@,
            match calibre_or_spec {
                Some(s) => Some(s@),
                None => None::<Seq<char>>,
            },
            match compatible_accessories {
                Some(s) => Some(s@),
                None => None::<Seq<char>>,
            },
            notes@),
{
    CatalogueVariant {
        equipment_name: equipment_name.to_string(),
        variant_name: variant_name.to_string(),
        calibre_or_spec: opt_string(calibre_or_spec),
        compatible_accessories: opt_string(compatible_accessories),
        notes: notes.to_string(),
    }
}

/// The equipment items of the catalogue.
pub fn catalogue_items() -> (r: Vec<CatalogueItem>)
    ensures
        catalogue_items_are(r@),
{
    let mut items: Vec<CatalogueItem> = Vec::new();
    items.push(catalogue_item("C7A2 Rifle", "Rifle, 5.56mm, C7A2", EquipmentCategory::Weapon, "Colt Canada", "Canada", ServiceBranch::Army, EquipmentStatus::InService, Some(2004),
        "Primary service rifle of the CAF. Features flat-top upper receiver, full-length rail, and collapsible stock."));
    items.push(catalogue_item("C8A3 Carbine", "Carbine, 5.56mm, C8A3", EquipmentCategory::Weapon, "Colt Canada", "Canada", ServiceBranch::Army, EquipmentStatus::InService, Some(2019),
        "Compact carbine variant; primary weapon for vehicle crews, special operations, and certain support trades."));
    items.push(catalogue_item("C9A2 Light Machine Gun", "Machine Gun, Light, 5.56mm, C9A2", EquipmentCategory::Weapon, "Colt Canada", "Canada", ServiceBranch::Army, EquipmentStatus::InService, Some(2006),
        "Section-level light support weapon. Fires standard 5.56×45mm NATO ammunition from a 200-round drum or linked belt."));
    items.push(catalogue_item("C6A1 General Purpose Machine Gun", "Machine Gun, General Purpose, 7.62mm, C6A1", EquipmentCategory::Weapon, "FN Herstal", "Belgium", ServiceBranch::Army, EquipmentStatus::InService, Some(1985),
        "GPMG based on the FN MAG. Used at platoon / company fire support and as a vehicle-mounted weapon."));
    items.push(catalogue_item("C14 Timberwolf Sniper Rifle", "Rifle, Sniper, 0.338in, C14", EquipmentCategory::Weapon, "PGW Defence Technologies", "Canada", ServiceBranch::Army, EquipmentStatus::InService, Some(2005),
        "Long-range bolt-action sniper rifle chambered in .338 Lapua Magnum."));
    items.push(catalogue_item("C15 Long Range Sniper Weapon", "Rifle, Sniper, 0.50in, C15", EquipmentCategory::Weapon, "McMillan Firearms", "United States", ServiceBranch::Army, EquipmentStatus::InService, Some(2000),
        "Anti-materiel / long-range sniper weapon chambered in .50 BMG."));
    items.push(catalogue_item("C7 Grenade Launcher (M203)", "Grenade Launcher, 40mm, C16", EquipmentCategory::Weapon, "Colt Canada", "Canada", ServiceBranch::Army, EquipmentStatus::InService, Some(1995),
        "Under-barrel grenade launcher for C7/C8 family. Fires 40×46mm low-velocity grenades."));
    items.push(catalogue_item("Browning Hi-Power Pistol", "Pistol, 9mm, Browning Hi-Power", EquipmentCategory::Weapon, "FN Herstal", "Belgium", ServiceBranch::Joint, EquipmentStatus::Legacy, Some(1944),
        "Standard service pistol for decades; being replaced by the SIG Sauer P320-M17/M18."));
    items.push(catalogue_item("SIG Sauer P320 Pistol", "Pistol, 9mm, P320-M17", EquipmentCategory::Weapon, "SIG Sauer", "Germany/United States", ServiceBranch::Joint, EquipmentStatus::InService, Some(2022),
        "Modular striker-fired pistol replacing the Browning Hi-Power across the CAF."));
    items.push(catalogue_item("M72 LAW", "Rocket Launcher, 66mm, M72", EquipmentCategory::Weapon, "Nammo Talley", "United States", ServiceBranch::Army, EquipmentStatus::InService, Some(1970),
        "Single-shot, disposable anti-armour rocket. Widely distributed to infantry sections."));
    items.push(catalogue_item("Carl Gustaf Recoilless Rifle", "Recoilless Rifle, 84mm, M3 Carl Gustaf", EquipmentCategory::Weapon, "Saab Bofors Dynamics", "Sweden", ServiceBranch::Army, EquipmentStatus::InService, Some(1991),
        "Multi-role, man-portable recoilless rifle. Fires a variety of 84mm rounds including anti-armour, HE, and illumination."));
    items.push(catalogue_item("C79 Optical Sight", "Sight, Optical, C79A2", EquipmentCategory::Optic, "Elcan Optical Technologies", "Canada", ServiceBranch::Army, EquipmentStatus::InService, Some(1987),
        "3.4× magnification optical sight for the C7/C8 family. NATO STANAG 4694 rail-compatible."));
    items.push(catalogue_item("Elcan Specter DR", "Sight, Optical, Specter DR", EquipmentCategory::Optic, "Elcan Optical Technologies", "Canada", ServiceBranch::Army, EquipmentStatus::InService, Some(2006),
        "Dual-role 1× / 4× optical sight. Provides rapid switch between close-quarters and medium-range engagement."));
    items.push(catalogue_item("AN/PVS-14 Night Vision Monocular", "Monocular, Night Vision, AN/PVS-14", EquipmentCategory::Optic, "L3Harris Technologies", "United States", ServiceBranch::Joint, EquipmentStatus::InService, Some(2000),
        "Gen III image-intensified NVG monocular. Can be head-mounted or weapon-mounted."));
    items.push(catalogue_item("AN/PEQ-2 Laser Aiming Device", "Target Pointer/Illuminator/Aiming Laser, AN/PEQ-2", EquipmentCategory::Optic, "L3Harris Technologies", "United States", ServiceBranch::Army, EquipmentStatus::InService, Some(1999),
        "Infrared and visible laser aiming device for use with NVG or unaided. Rail-mounted on C7/C8 family."));
    items.push(catalogue_item("LSVW (G-Wagon)", "Vehicle, Light Support, Wheeled (LSVW)", EquipmentCategory::Vehicle, "Mercedes-Benz (Daimler-Chrysler)", "Germany", ServiceBranch::Army, EquipmentStatus::InService, Some(1993),
        "Light utility / patrol vehicle. Variants include soft-top, hard-top, and ambulance. 4×4."));
    items.push(catalogue_item("LAV 6.0", "Vehicle, Armoured, Light, LAV 6.0", EquipmentCategory::Vehicle, "General Dynamics Land Systems – Canada", "Canada", ServiceBranch::Army, EquipmentStatus::InService, Some(2017),
        "8×8 wheeled armoured vehicle. Primary fighting vehicle for Royal Canadian Armoured Corps reconnaissance and mechanized infantry."));
    items.push(catalogue_item("Leopard 2A4 / 2A6M CAN", "Tank, Main Battle, Leopard 2", EquipmentCategory::Vehicle, "Krauss-Maffei Wegmann", "Germany", ServiceBranch::Army, EquipmentStatus::InService, Some(2007),
        "120mm smoothbore-armed MBT. CAF operates A4 and upgraded A6M CAN variants."));
    items.push(catalogue_item("M113 APC", "Carrier, Personnel, Armoured, M113", EquipmentCategory::Vehicle, "BAE Systems", "United States", ServiceBranch::Army, EquipmentStatus::Legacy, Some(1964),
        "Tracked APC; still operated in limited numbers by reserve and training units."));
    items.push(catalogue_item("RG-31 Nyala MRAP", "Vehicle, Patrol, Protected, RG-31 Nyala", EquipmentCategory::Vehicle, "BAE Systems / Land Systems OMC", "South Africa", ServiceBranch::Army, EquipmentStatus::Limited, Some(2006),
        "Mine-resistant ambush-protected patrol vehicle used during Afghanistan operations."));
    items.push(catalogue_item("MLVW", "Vehicle, Logistics, Medium, Wheeled (MLVW)", EquipmentCategory::Vehicle, "Mercedes-Benz", "Germany", ServiceBranch::Army, EquipmentStatus::Legacy, Some(1982),
        "2.5-tonne utility truck. Being replaced by the MILCOTS fleet."));
    items.push(catalogue_item("M777 Howitzer", "Howitzer, 155mm, M777", EquipmentCategory::Vehicle, "BAE Systems", "United Kingdom/United States", ServiceBranch::Army, EquipmentStatus::InService, Some(2005),
        "Lightweight 155mm towed howitzer. Air-transportable by CH-147F Chinook."));
    items.push(catalogue_item("PRC-152A Handheld Radio", "Radio Set, Manpack, AN/PRC-152A", EquipmentCategory::Comms, "Harris Corporation (L3Harris)", "United States", ServiceBranch::Joint, EquipmentStatus::InService, Some(2010),
        "Multi-band tactical handheld radio with wideband networking capability."));
    items.push(catalogue_item("PRC-117G Manpack Radio", "Radio Set, Manpack, AN/PRC-117G", EquipmentCategory::Comms, "Harris Corporation (L3Harris)", "United States", ServiceBranch::Joint, EquipmentStatus::InService, Some(2010),
        "Wideband manpack radio with SATCOM capability. Supports SINCGARS and HF."));
    items.push(catalogue_item("VRC-99 Vehicle Radio", "Radio Set, Vehicular, AN/VRC-99", EquipmentCategory::Comms, "Harris Corporation (L3Harris)", "United States", ServiceBranch::Army, EquipmentStatus::InService, Some(2008),
        "Vehicle-mounted multi-band radio for armoured and wheeled platforms."));
    items.push(catalogue_item("C2 Composite Body Armour", "Armour, Body, Composite, C2", EquipmentCategory::Clothing, "Various (DHC contract)", "Canada", ServiceBranch::Joint, EquipmentStatus::InService, Some(2006),
        "Modular plate-carrier system with SAPI plates. Replaces the older IBAS."));
    items.push(catalogue_item("CADPAT TW Uniform", "Uniform, Disruptive Pattern, CADPAT (Temperate Woodland)", EquipmentCategory::Clothing, "Various (DHC contract)", "Canada", ServiceBranch::Joint, EquipmentStatus::InService, Some(2002),
        "Standard combat uniform in CADPAT Temperate Woodland pattern. First digitally generated camouflage pattern in NATO service."));
    items.push(catalogue_item("CADPAT AR Uniform", "Uniform, Disruptive Pattern, CADPAT (Arid Regions)", EquipmentCategory::Clothing, "Various (DHC contract)", "Canada", ServiceBranch::Joint, EquipmentStatus::InService, Some(2002),
        "CADPAT Arid Regions pattern for desert and semi-arid operations."));
    items.push(catalogue_item("CF98 Combat Boots", "Boots, Combat, CF98", EquipmentCategory::Clothing, "Various (DHC contract)", "Canada", ServiceBranch::Joint, EquipmentStatus::InService, Some(1998),
        "Standard issue leather/nylon combat boot."));
    items.push(catalogue_item("C8 Cleaning Kit", "Kit, Cleaning, 5.56mm Rifle/Carbine", EquipmentCategory::CES, "Various", "Canada", ServiceBranch::Army, EquipmentStatus::InService, None,
        "Complete equipment schedule cleaning kit for C7/C8 family weapons."));
    items.push(catalogue_item("C6 Cleaning / Spare Parts Kit", "Kit, Cleaning and Spare Parts, 7.62mm GPMG", EquipmentCategory::CES, "Various", "Belgium", ServiceBranch::Army, EquipmentStatus::InService, None,
        "CES for the C6 GPMG; includes spare bolt, barrel, and cleaning tools."));
    items.push(catalogue_item("ILBE Rucksack", "Pack, Assault, ILBE", EquipmentCategory::CES, "Arc'teryx LEAF / Various", "Canada", ServiceBranch::Joint, EquipmentStatus::InService, Some(2010),
        "Integrated Load Bearing Equipment assault rucksack. Part of the CADPAT personal kit system."));
    items.push(catalogue_item("5.56×45mm Ball Ammunition (C77)", "Cartridge, 5.56mm Ball, C77", EquipmentCategory::Ammunition, "Various NATO suppliers", "Canada/NATO", ServiceBranch::Joint, EquipmentStatus::InService, Some(1985),
        "Standard 5.56×45mm NATO ball ammunition for C7/C8/C9 family."));
    items.push(catalogue_item("7.62×51mm Ball Ammunition", "Cartridge, 7.62mm Ball, C21", EquipmentCategory::Ammunition, "Various NATO suppliers", "Canada/NATO", ServiceBranch::Joint, EquipmentStatus::InService, Some(1960),
        "Standard 7.62×51mm NATO ball for C6 GPMG and C14 (not for sniper use)."));
    items
}

/// The variants of the catalogue.
pub fn catalogue_variants() -> (r: Vec<CatalogueVariant>)
    ensures
        catalogue_variants_are(r@),
{
    let mut variants: Vec<CatalogueVariant> = Vec::new();
    variants.push(catalogue_variant("C7A2 Rifle", "C7A2 (Base)", Some("5.56×45mm NATO"), Some("C79A2, AN/PEQ-2, AN/PVS-14, C16 UGL, foregrip"),
        "Standard configuration, iron sights. 18.6\" barrel, 40-round magazine."));
    variants.push(catalogue_variant("C7A2 Rifle", "C7A2 + C79A2 Optic", Some("5.56×45mm NATO"), Some("AN/PEQ-2, AN/PVS-14, C16 UGL, foregrip"),
        "Standard section commander / rifleman configuration with 3.4× C79A2 optical sight."));
    variants.push(catalogue_variant("C7A2 Rifle", "C7A2 + C79A2 + C16 UGL", Some("5.56×45mm NATO / 40×46mm HV"), Some("AN/PEQ-2, AN/PVS-14, foregrip"),
        "Grenadier configuration. C16 (M203) grenade launcher fitted under barrel."));
    variants.push(catalogue_variant("C8A3 Carbine", "C8A3 (Base)", Some("5.56×45mm NATO"), Some("C79A2, Elcan Specter DR, AN/PEQ-2, AN/PVS-14"),
        "Short-barrel carbine; 14.5\" barrel, collapsible stock."));
    variants.push(catalogue_variant("C8A3 Carbine", "C8A3 + Specter DR", Some("5.56×45mm NATO"), Some("AN/PEQ-2, AN/PVS-14, suppressor"),
        "Common SOF/recce configuration with dual-role Elcan Specter DR (1× / 4×)."));
    variants.push(catalogue_variant("C9A2 Light Machine Gun", "C9A2 (Base)", Some("5.56×45mm NATO"), Some("C79A2, AN/PVS-14, bipod (integral)"),
        "Section light support. Integral bipod, 200-round drum or belt-fed."));
    variants.push(catalogue_variant("C6A1 General Purpose Machine Gun", "C6A1 (Dismounted / LMG Role)", Some("7.62×51mm NATO"), Some("Bipod, AN/PVS-14"),
        "Dismounted medium machine gun configuration, shoulder-fired or bipod-mounted."));
    variants.push(catalogue_variant("C6A1 General Purpose Machine Gun", "C6A1 (Vehicle-Mounted)", Some("7.62×51mm NATO"), Some("Vehicle pintle mount, T&E mechanism, ammo box"),
        "Vehicle co-axial or pintle-mounted configuration."));
    variants.push(catalogue_variant("C79 Optical Sight", "C79A2", Some("3.4× magnification"), Some("C7A2, C8A3, C9A2"),
        "Current production variant with integral tritium illumination for reticle."));
    variants.push(catalogue_variant("AN/PVS-14 Night Vision Monocular", "AN/PVS-14 (Head-Mounted)", Some("Gen III, 1× to 3× magnification"), Some("Rhino arm mount, PASGT/MICH helmet mount, dioptre kit"),
        "Standard head-mount configuration with rhino arm for helmet attachment."));
    variants.push(catalogue_variant("AN/PVS-14 Night Vision Monocular", "AN/PVS-14 (Weapon-Mounted)", Some("Gen III"), Some("Picatinny rail mount, weapon mount adapter"),
        "Weapon-mounted configuration used in conjunction with AN/PEQ-2."));
    variants.push(catalogue_variant("Elcan Specter DR", "Specter DR (5.56mm BDC)", Some("1× / 4× switchable"), Some("C8A3, C7A2"),
        "Ballistic drop compensator reticle optimised for 5.56×45mm."));
    variants.push(catalogue_variant("LSVW (G-Wagon)", "LSVW Soft-Top", Some("2.9L diesel, 4×4"), Some("Pintle mount, radio rack, CES"),
        "Open-top general purpose variant."));
    variants.push(catalogue_variant("LSVW (G-Wagon)", "LSVW Hard-Top", Some("2.9L diesel, 4×4"), Some("Pintle mount, radio rack, CES"),
        "Enclosed variant for command, signals, and protection."));
    variants.push(catalogue_variant("LAV 6.0", "LAV 6.0 IFV", Some("25mm M242 Bushmaster cannon"), Some("C6A1 co-ax, commander's sight, FLIR"),
        "Infantry fighting vehicle variant with two-person turret."));
    variants.push(catalogue_variant("LAV 6.0", "LAV 6.0 APC", Some("12.7mm M2HB or C6A1"), Some("Pintle mount, ERA kit"),
        "Armoured personnel carrier variant without turret."));
    variants.push(catalogue_variant("PRC-152A Handheld Radio", "AN/PRC-152A (Handheld)", Some("30–512 MHz"), Some("Headset, MBITR antenna, speaker-mic, Pelican case"),
        "Standard configuration for section-level communications."));
    variants.push(catalogue_variant("C2 Composite Body Armour", "C2 (Level III+, TW)", Some("SAPI ceramic/polyethylene plates"), Some("Groin protector, collar, shoulder guards, deltoid"),
        "Full modular configuration with temperate woodland soft armour carrier."));
    variants.push(catalogue_variant("C2 Composite Body Armour", "C2 (Minimum Configuration)", Some("Front/rear SAPI plates only"), Some("Plate carrier only"),
        "Minimum force-protection configuration for lower-threat environments."));
    variants
}

} // verus!
