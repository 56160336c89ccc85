use vstd::prelude::*;

use crate::text::{ascii_lower_code, eq_ignore_ascii_case, eq_ignore_ascii_case_spec};

verus! {

/// A resource that can be extracted from a planet, crafted, stored and traded.
#[derive(Debug, PartialEq, Eq, Structural, PartialOrd, Ord, Clone, Copy)]
pub enum Resource {
    // Solid or liquid
    Stone,
    Iron,
    Copper,
    Gold,
    // Gaseous
    Hydrogen,
    Oxygen,
    Helium,
    Ozone,
    // Crafted
    Fuel,
    HullPlate,
}

/// Every resource, in declaration order.
pub open spec fn all_resources() -> Seq<Resource> {
    seq![
        Resource::Stone,
        Resource::Iron,
        Resource::Copper,
        Resource::Gold,
        Resource::Hydrogen,
        Resource::Oxygen,
        Resource::Helium,
        Resource::Ozone,
        Resource::Fuel,
        Resource::HullPlate,
    ]
}

impl Resource {
    /// The name of the resource, as written in the declaration.
    pub open spec fn name_spec(self) -> Seq<char> {
        match self {
            Resource::Stone => "Stone"@,
            Resource::Iron => "Iron"@,
            Resource::Copper => "Copper"@,
            Resource::Gold => "Gold"@,
            Resource::Hydrogen => "Hydrogen"@,
            Resource::Oxygen => "Oxygen"@,
            Resource::Helium => "Helium"@,
            Resource::Ozone => "Ozone"@,
            Resource::Fuel => "Fuel"@,
            Resource::HullPlate => "HullPlate"@,
        }
    }

    /// The minimal rank needed to extract the resource; crafted ones have 0.
    pub open spec fn min_rank_spec(self) -> u8 {
        match self {
            Resource::Stone | Resource::Hydrogen => 0,
            Resource::Iron | Resource::Oxygen => 2,
            Resource::Copper | Resource::Helium => 4,
            Resource::Gold | Resource::Ozone => 6,
            Resource::Fuel | Resource::HullPlate => 0,
        }
    }

    /// Crafted resources, counted in the score when traded.
    pub open spec fn scored_spec(self) -> bool {
        self is Fuel || self is HullPlate
    }

    /// Solid resources, extracted by a miner.
    pub open spec fn is_solid(self) -> bool {
        self is Stone || self is Iron || self is Copper || self is Gold
    }

    /// Gaseous resources, extracted by a gas sucker.
    pub open spec fn is_gas(self) -> bool {
        self is Hydrogen || self is Oxygen || self is Helium || self is Ozone
    }

    /// The resource with a case-insensitive name `s`, if any.
    pub open spec fn parse_spec(s: Seq<char>) -> Option<Resource> {
        if eq_ignore_ascii_case_spec(s, "Stone"@) {
            Some(Resource::Stone)
        } else if eq_ignore_ascii_case_spec(s, "Iron"@) {
            Some(Resource::Iron)
        } else if eq_ignore_ascii_case_spec(s, "Copper"@) {
            Some(Resource::Copper)
        } else if eq_ignore_ascii_case_spec(s, "Gold"@) {
            Some(Resource::Gold)
        } else if eq_ignore_ascii_case_spec(s, "Hydrogen"@) {
            Some(Resource::Hydrogen)
        } else if eq_ignore_ascii_case_spec(s, "Oxygen"@) {
            Some(Resource::Oxygen)
        } else if eq_ignore_ascii_case_spec(s, "Helium"@) {
            Some(Resource::Helium)
        } else if eq_ignore_ascii_case_spec(s, "Ozone"@) {
            Some(Resource::Ozone)
        } else if eq_ignore_ascii_case_spec(s, "Fuel"@) {
            Some(Resource::Fuel)
        } else if eq_ignore_ascii_case_spec(s, "HullPlate"@) {
            Some(Resource::HullPlate)
        } else {
            None
        }
    }

    /// Crafted resources count in the score when traded.
    pub fn scored(&self) -> (b: bool)
        ensures
            b == self.scored_spec(),
    {
        matches!(self, Resource::Fuel | Resource::HullPlate)
    }

    /// The minimal rank an operator must exceed to extract the resource.
    pub fn min_rank(&self) -> (r: u8)
        ensures
            r == self.min_rank_spec(),
    {
        match self {
            Resource::Stone | Resource::Hydrogen => 0,
            Resource::Iron | Resource::Oxygen => 2,
            Resource::Copper | Resource::Helium => 4,
            Resource::Gold | Resource::Ozone => 6,
            Resource::Fuel | Resource::HullPlate => 0,
        }
    }

    /// Whether a miner operated at `rank` can extract the resource.
    pub fn mineable(&self, rank: u8) -> (b: bool)
        ensures
            b == (self.is_solid() && rank > self.min_rank_spec()),
    {
        match self {
            Resource::Stone | Resource::Iron | Resource::Copper | Resource::Gold => {
                rank > self.min_rank()
            },
            _ => false,
        }
    }

    /// Whether a gas sucker operated at `rank` can extract the resource.
    pub fn suckable(&self, rank: u8) -> (b: bool)
        ensures
            b == (self.is_gas() && rank > self.min_rank_spec()),
    {
        match self {
            Resource::Hydrogen | Resource::Oxygen | Resource::Helium | Resource::Ozone => {
                rank > self.min_rank()
            },
            _ => false,
        }
    }

    /// The name of the resource.
    pub fn name(&self) -> (s: &'static str)
        ensures
            s@ == self.name_spec(),
    {
        match self {
            Resource::Stone => "Stone",
            Resource::Iron => "Iron",
            Resource::Copper => "Copper",
            Resource::Gold => "Gold",
            Resource::Hydrogen => "Hydrogen",
            Resource::Oxygen => "Oxygen",
            Resource::Helium => "Helium",
            Resource::Ozone => "Ozone",
            Resource::Fuel => "Fuel",
            Resource::HullPlate => "HullPlate",
        }
    }

    /// Every resource, in declaration order.
    pub fn all() -> (v: Vec<Resource>)
        ensures
            v@ == all_resources(),
    {
        let v = vec![
            Resource::Stone,
            Resource::Iron,
            Resource::Copper,
            Resource::Gold,
            Resource::Hydrogen,
            Resource::Oxygen,
            Resource::Helium,
            Resource::Ozone,
            Resource::Fuel,
            Resource::HullPlate,
        ];
        assert(v@ =~= all_resources());
        v
    }

    /// Parses a resource name, ignoring the case of ASCII letters.
    pub fn from_str(s: &str) -> (r: Option<Resource>)
        ensures
            r == Resource::parse_spec(s@),
    {
        if eq_ignore_ascii_case(s, "Stone") {
            Some(Resource::Stone)
        } else if eq_ignore_ascii_case(s, "Iron") {
            Some(Resource::Iron)
        } else if eq_ignore_ascii_case(s, "Copper") {
            Some(Resource::Copper)
        } else if eq_ignore_ascii_case(s, "Gold") {
            Some(Resource::Gold)
        } else if eq_ignore_ascii_case(s, "Hydrogen") {
            Some(Resource::Hydrogen)
        } else if eq_ignore_ascii_case(s, "Oxygen") {
            Some(Resource::Oxygen)
        } else if eq_ignore_ascii_case(s, "Helium") {
            Some(Resource::Helium)
        } else if eq_ignore_ascii_case(s, "Ozone") {
            Some(Resource::Ozone)
        } else if eq_ignore_ascii_case(s, "Fuel") {
            Some(Resource::Fuel)
        } else if eq_ignore_ascii_case(s, "HullPlate") {
            Some(Resource::HullPlate)
        } else {
            None
        }
    }
}

/// A resource's name parses back to the resource, whatever the case of its
/// ASCII letters.
pub proof fn law_resource_name_parses(r: Resource, s: Seq<char>)
    requires
        eq_ignore_ascii_case_spec(s, r.name_spec()),
    ensures
        Resource::parse_spec(s) == Some(r),
{
    reveal_strlit("Stone");
    reveal_strlit("Iron");
    reveal_strlit("Copper");
    reveal_strlit("Gold");
    reveal_strlit("Hydrogen");
    reveal_strlit("Oxygen");
    reveal_strlit("Helium");
    reveal_strlit("Ozone");
    reveal_strlit("Fuel");
    reveal_strlit("HullPlate");
    assert(ascii_lower_code(s[0]) == ascii_lower_code(r.name_spec()[0]));
    if s.len() >= 2 {
        assert(ascii_lower_code(s[1]) == ascii_lower_code(r.name_spec()[1]));
    }
}

/// No resource is both mined and sucked, and crafted resources are neither.
pub proof fn law_extraction_kinds(r: Resource)
    ensures
        !(r.is_solid() && r.is_gas()),
        r.scored_spec() ==> !r.is_solid() && !r.is_gas(),
{
}

} // verus!
