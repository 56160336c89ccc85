use vstd::prelude::*;

use crate::text::{ascii_lower_code, eq_ignore_ascii_case, eq_ignore_ascii_case_spec};

verus! {

/// Identifier of an industry unit.
pub type IndustryUnitId = u32;

/// The kinds of industry unit a station can build.
#[derive(Debug, PartialEq, Eq, Structural, PartialOrd, Ord, Clone, Copy)]
pub enum IndustryUnitType {
    SimpleFuelRefinery,
    AdvancedFuelRefinery,
    SimpleHullFoundry,
    AdvancedHullFoundry,
}

impl IndustryUnitType {
    /// The name of the unit type, as written in the declaration.
    pub open spec fn name_spec(self) -> Seq<char> {
        match self {
            IndustryUnitType::SimpleFuelRefinery => "SimpleFuelRefinery"@,
            IndustryUnitType::AdvancedFuelRefinery => "AdvancedFuelRefinery"@,
            IndustryUnitType::SimpleHullFoundry => "SimpleHullFoundry"@,
            IndustryUnitType::AdvancedHullFoundry => "AdvancedHullFoundry"@,
        }
    }

    /// The unit type with a case-insensitive name `s`, if any.
    pub open spec fn parse_spec(s: Seq<char>) -> Option<IndustryUnitType> {
        if eq_ignore_ascii_case_spec(s, "SimpleFuelRefinery"@) {
            Some(IndustryUnitType::SimpleFuelRefinery)
        } else if eq_ignore_ascii_case_spec(s, "AdvancedFuelRefinery"@) {
            Some(IndustryUnitType::AdvancedFuelRefinery)
        } else if eq_ignore_ascii_case_spec(s, "SimpleHullFoundry"@) {
            Some(IndustryUnitType::SimpleHullFoundry)
        } else if eq_ignore_ascii_case_spec(s, "AdvancedHullFoundry"@) {
            Some(IndustryUnitType::AdvancedHullFoundry)
        } else {
            None
        }
    }

    /// Parses a unit type name, ignoring the case of ASCII letters.
    pub fn from_str(s: &str) -> (t: Option<IndustryUnitType>)
        ensures
            t == IndustryUnitType::parse_spec(s@),
    {
        if eq_ignore_ascii_case(s, "SimpleFuelRefinery") {
            Some(IndustryUnitType::SimpleFuelRefinery)
        } else if eq_ignore_ascii_case(s, "AdvancedFuelRefinery") {
            Some(IndustryUnitType::AdvancedFuelRefinery)
        } else if eq_ignore_ascii_case(s, "SimpleHullFoundry") {
            Some(IndustryUnitType::SimpleHullFoundry)
        } else if eq_ignore_ascii_case(s, "AdvancedHullFoundry") {
            Some(IndustryUnitType::AdvancedHullFoundry)
        } else {
            None
        }
    }

    /// The name of the unit type.
    pub fn name(&self) -> (s: &'static str)
        ensures
            s@ == self.name_spec(),
    {
        match self {
            IndustryUnitType::SimpleFuelRefinery => "SimpleFuelRefinery",
            IndustryUnitType::AdvancedFuelRefinery => "AdvancedFuelRefinery",
            IndustryUnitType::SimpleHullFoundry => "SimpleHullFoundry",
            IndustryUnitType::AdvancedHullFoundry => "AdvancedHullFoundry",
        }
    }

    /// Every unit type, in declaration order.
    pub fn all() -> (v: Vec<IndustryUnitType>)
        ensures
            v@ == seq![
                IndustryUnitType::SimpleFuelRefinery,
                IndustryUnitType::AdvancedFuelRefinery,
                IndustryUnitType::SimpleHullFoundry,
                IndustryUnitType::AdvancedHullFoundry,
            ],
    {
        let v = vec![
            IndustryUnitType::SimpleFuelRefinery,
            IndustryUnitType::AdvancedFuelRefinery,
            IndustryUnitType::SimpleHullFoundry,
            IndustryUnitType::AdvancedHullFoundry,
        ];
        assert(v@ =~= seq![
            IndustryUnitType::SimpleFuelRefinery,
            IndustryUnitType::AdvancedFuelRefinery,
            IndustryUnitType::SimpleHullFoundry,
            IndustryUnitType::AdvancedHullFoundry,
        ]);
        v
    }
}


/// A unit type's name parses back to the unit type, whatever the case of its
/// ASCII letters.
pub proof fn law_unit_type_name_parses(i: IndustryUnitType, s: Seq<char>)
    requires
        eq_ignore_ascii_case_spec(s, i.name_spec()),
    ensures
        IndustryUnitType::parse_spec(s) == Some(i),
{
    reveal_strlit("SimpleFuelRefinery");
    reveal_strlit("AdvancedFuelRefinery");
    reveal_strlit("SimpleHullFoundry");
    reveal_strlit("AdvancedHullFoundry");
    assert(ascii_lower_code(s[0]) == ascii_lower_code(i.name_spec()[0]));
}

} // verus!
