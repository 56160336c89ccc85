use vstd::prelude::*;

use crate::text::{ascii_lower_code, eq_ignore_ascii_case, eq_ignore_ascii_case_spec};

verus! {

/// An upgrade that a station's shipyard can install on a ship.
#[derive(Debug, PartialEq, Eq, Structural, PartialOrd, Ord, Clone, Copy)]
pub enum ShipUpgrade {
    CargoExpansion,
    ReactorUpgrade,
    HullUpgrade,
    Shield,
}

impl ShipUpgrade {
    /// The name of the upgrade, as written in the declaration.
    pub open spec fn name_spec(self) -> Seq<char> {
        match self {
            ShipUpgrade::CargoExpansion => "CargoExpansion"@,
            ShipUpgrade::ReactorUpgrade => "ReactorUpgrade"@,
            ShipUpgrade::HullUpgrade => "HullUpgrade"@,
            ShipUpgrade::Shield => "Shield"@,
        }
    }

    /// The upgrade with a case-insensitive name `s`, if any.
    pub open spec fn parse_spec(s: Seq<char>) -> Option<ShipUpgrade> {
        if eq_ignore_ascii_case_spec(s, "CargoExpansion"@) {
            Some(ShipUpgrade::CargoExpansion)
        } else if eq_ignore_ascii_case_spec(s, "ReactorUpgrade"@) {
            Some(ShipUpgrade::ReactorUpgrade)
        } else if eq_ignore_ascii_case_spec(s, "HullUpgrade"@) {
            Some(ShipUpgrade::HullUpgrade)
        } else if eq_ignore_ascii_case_spec(s, "Shield"@) {
            Some(ShipUpgrade::Shield)
        } else {
            None
        }
    }

    /// What the upgrade does, as shown to players.
    pub open spec fn description_spec(self) -> Seq<char> {
        match self {
            ShipUpgrade::CargoExpansion => "Adds 100 of cargo capacity"@,
            ShipUpgrade::ReactorUpgrade => "Increase the reactor power by 1, improves the ship's speed"@,
            ShipUpgrade::HullUpgrade => "Increase the hull decay capacity by 100"@,
            ShipUpgrade::Shield => "Reduce the damage and usure of the hull"@,
        }
    }

    /// Parses an upgrade name, ignoring the case of ASCII letters.
    pub fn from_str(s: &str) -> (u: Option<ShipUpgrade>)
        ensures
            u == ShipUpgrade::parse_spec(s@),
    {
        if eq_ignore_ascii_case(s, "CargoExpansion") {
            Some(ShipUpgrade::CargoExpansion)
        } else if eq_ignore_ascii_case(s, "ReactorUpgrade") {
            Some(ShipUpgrade::ReactorUpgrade)
        } else if eq_ignore_ascii_case(s, "HullUpgrade") {
            Some(ShipUpgrade::HullUpgrade)
        } else if eq_ignore_ascii_case(s, "Shield") {
            Some(ShipUpgrade::Shield)
        } else {
            None
        }
    }

    /// The name of the upgrade.
    pub fn name(&self) -> (s: &'static str)
        ensures
            s@ == self.name_spec(),
    {
        match self {
            ShipUpgrade::CargoExpansion => "CargoExpansion",
            ShipUpgrade::ReactorUpgrade => "ReactorUpgrade",
            ShipUpgrade::HullUpgrade => "HullUpgrade",
            ShipUpgrade::Shield => "Shield",
        }
    }

    /// Every upgrade, in declaration order.
    pub fn all() -> (v: Vec<ShipUpgrade>)
        ensures
            v@ == seq![
                ShipUpgrade::CargoExpansion,
                ShipUpgrade::ReactorUpgrade,
                ShipUpgrade::HullUpgrade,
                ShipUpgrade::Shield,
            ],
    {
        let v = vec![
            ShipUpgrade::CargoExpansion,
            ShipUpgrade::ReactorUpgrade,
            ShipUpgrade::HullUpgrade,
            ShipUpgrade::Shield,
        ];
        assert(v@ =~= seq![
            ShipUpgrade::CargoExpansion,
            ShipUpgrade::ReactorUpgrade,
            ShipUpgrade::HullUpgrade,
            ShipUpgrade::Shield,
        ]);
        v
    }

    /// What the upgrade does, as shown to players.
    pub fn description(&self) -> (d: String)
        ensures
            d@ == self.description_spec(),
    {
        match self {
            ShipUpgrade::CargoExpansion => "Adds 100 of cargo capacity".to_owned(),
            ShipUpgrade::ReactorUpgrade => "Increase the reactor power by 1, improves the ship's speed".to_owned(),
            ShipUpgrade::HullUpgrade => "Increase the hull decay capacity by 100".to_owned(),
            ShipUpgrade::Shield => "Reduce the damage and usure of the hull".to_owned(),
        }
    }
}


/// An upgrade's name parses back to the upgrade, whatever the case of its
/// ASCII letters.
pub proof fn law_upgrade_name_parses(x: ShipUpgrade, s: Seq<char>)
    requires
        eq_ignore_ascii_case_spec(s, x.name_spec()),
    ensures
        ShipUpgrade::parse_spec(s) == Some(x),
{
    reveal_strlit("CargoExpansion");
    reveal_strlit("ReactorUpgrade");
    reveal_strlit("HullUpgrade");
    reveal_strlit("Shield");
    assert(ascii_lower_code(s[0]) == ascii_lower_code(x.name_spec()[0]));
}

} // verus!
