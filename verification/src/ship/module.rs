use vstd::prelude::*;

use crate::crew::{Crew, CrewId, CrewMember, CrewMemberType};
use crate::galaxy::{density_spec, Planet};
use crate::ship::resources::{all_resources, Resource};
use crate::text::{ascii_lower_code, eq_ignore_ascii_case, eq_ignore_ascii_case_spec};

verus! {

/// Identifier of a module on a ship.
pub type ShipModuleId = u16;

/// The kinds of module that can be installed on a ship.
#[derive(Debug, PartialEq, Eq, Structural, PartialOrd, Ord, Clone, Copy)]
pub enum ShipModuleType {
    Miner,
    GasSucker,
}

impl ShipModuleType {
    /// The name of the module type, as written in the declaration.
    pub open spec fn name_spec(self) -> Seq<char> {
        match self {
            ShipModuleType::Miner => "Miner"@,
            ShipModuleType::GasSucker => "GasSucker"@,
        }
    }

    /// The module type with a case-insensitive name `s`, if any.
    pub open spec fn parse_spec(s: Seq<char>) -> Option<ShipModuleType> {
        if eq_ignore_ascii_case_spec(s, "Miner"@) {
            Some(ShipModuleType::Miner)
        } else if eq_ignore_ascii_case_spec(s, "GasSucker"@) {
            Some(ShipModuleType::GasSucker)
        } else {
            None
        }
    }

    /// Parses a module type name, ignoring the case of ASCII letters.
    pub fn from_str(s: &str) -> (t: Option<ShipModuleType>)
        ensures
            t == ShipModuleType::parse_spec(s@),
    {
        if eq_ignore_ascii_case(s, "Miner") {
            Some(ShipModuleType::Miner)
        } else if eq_ignore_ascii_case(s, "GasSucker") {
            Some(ShipModuleType::GasSucker)
        } else {
            None
        }
    }

    /// The name of the module type.
    pub fn name(&self) -> (s: &'static str)
        ensures
            s@ == self.name_spec(),
    {
        match self {
            ShipModuleType::Miner => "Miner",
            ShipModuleType::GasSucker => "GasSucker",
        }
    }

    /// Every module type, in declaration order.
    pub fn all() -> (v: Vec<ShipModuleType>)
        ensures
            v@ == seq![ShipModuleType::Miner, ShipModuleType::GasSucker],
    {
        let v = vec![ShipModuleType::Miner, ShipModuleType::GasSucker];
        assert(v@ =~= seq![ShipModuleType::Miner, ShipModuleType::GasSucker]);
        v
    }

    /// A new module of this type: rank 1, with no operator.
    pub fn new_module(self) -> (m: ShipModule)
        ensures
            m == (ShipModule { operator: None, modtype: self, rank: 1 }),
    {
        ShipModule { operator: None, modtype: self, rank: 1 }
    }
}

/// A module installed on a ship.
#[derive(Debug, PartialEq, Eq, Structural, Clone, Copy)]
pub struct ShipModule {
    pub operator: Option<CrewId>,
    pub modtype: ShipModuleType,
    pub rank: u8,
}

impl ShipModule {
    /// Whether the module still needs a crew member of type `ctype`.
    pub open spec fn need_spec(self, ctype: CrewMemberType) -> bool {
        ctype == CrewMemberType::Operator && self.operator is None
    }

    /// Whether the module still needs a crew member of type `ctype`:
    /// extraction modules take one operator.
    pub fn need(&self, ctype: &CrewMemberType) -> (b: bool)
        ensures
            b == self.need_spec(*ctype),
    {
        match self.modtype {
            ShipModuleType::Miner | ShipModuleType::GasSucker => {
                *ctype == CrewMemberType::Operator && self.operator.is_none()
            },
        }
    }

    /// Whether a module of type `t`, run by an operator of rank `oprank`,
    /// extracts `r` from a planet of the given kind: the planet must hold
    /// some of it, a miner takes solids and a gas sucker gases, and the
    /// operator's rank must be above the resource's minimal rank.
    pub open spec fn extracts_spec(t: ShipModuleType, oprank: u8, solid: bool, r: Resource) -> bool {
        &&& density_spec(solid, r) > 0
        &&& match t {
            ShipModuleType::Miner => r.is_solid(),
            ShipModuleType::GasSucker => r.is_gas(),
        }
        &&& oprank > r.min_rank_spec()
    }

    /// The resources the module extracts from `planet`, in declaration
    /// order, given the crew that runs it; none without an operator.
    pub open spec fn can_extract_spec(self, crew: Map<CrewId, CrewMember>, solid: bool) -> Seq<Resource> {
        match self.operator {
            None => Seq::empty(),
            Some(op) => all_resources().filter(
                |r: Resource| ShipModule::extracts_spec(self.modtype, crew[op].rank, solid, r),
            ),
        }
    }

    /// The resources the module extracts from `planet`; its operator, if
    /// any, is one of `crew`.
    pub fn can_extract(&self, crew: &Crew, planet: &Planet) -> (v: Vec<Resource>)
        requires
            self.operator matches Some(op) ==> crew@.contains_key(op),
        ensures
            v@ == self.can_extract_spec(crew@, planet.solid_spec()),
    {
        let op = match self.operator {
            None => return Vec::new(),
            Some(op) => op,
        };
        let cm = match crew.get(&op) {
            Some(cm) => cm,
            None => return Vec::new(),
        };
        let ghost pred = |r: Resource| ShipModule::extracts_spec(self.modtype, cm.rank, planet.solid_spec(), r);
        let all = Resource::all();
        let mut v: Vec<Resource> = Vec::new();
        let mut i: usize = 0;
        while i < all.len()
            invariant
                all@ == all_resources(),
                i <= all@.len(),
                v@ == all@.take(i as int).filter(pred),
                pred == (|r: Resource| ShipModule::extracts_spec(self.modtype, cm.rank, planet.solid_spec(), r)),
            decreases all@.len() - i,
        {
            let r = all[i];
            let keep = planet.resource_density(&r) > 0 && match self.modtype {
                ShipModuleType::Miner => r.mineable(cm.rank),
                ShipModuleType::GasSucker => r.suckable(cm.rank),
            };
            proof {
                assert(all@.take(i + 1) =~= all@.take(i as int) + seq![r]);
                Seq::filter_distributes_over_add(all@.take(i as int), seq![r], pred);
                reveal_with_fuel(Seq::filter, 2);
                assert(keep == pred(r));
            }
            if keep {
                v.push(r);
            }
            i = i + 1;
        }
        assert(all@.take(all@.len() as int) =~= all@);
        v
    }
}


/// A module type's name parses back to the module type, whatever the case of
/// its ASCII letters.
pub proof fn law_module_type_name_parses(x: ShipModuleType, s: Seq<char>)
    requires
        eq_ignore_ascii_case_spec(s, x.name_spec()),
    ensures
        ShipModuleType::parse_spec(s) == Some(x),
{
    reveal_strlit("Miner");
    reveal_strlit("GasSucker");
    assert(ascii_lower_code(s[0]) == ascii_lower_code(x.name_spec()[0]));
}

/// A miner extracts nothing from a gaseous planet, and a gas sucker nothing
/// from a solid one.
pub proof fn law_wrong_module_extracts_nothing(m: ShipModule, crew: Map<CrewId, CrewMember>, solid: bool)
    requires
        (m.modtype == ShipModuleType::Miner) != solid,
    ensures
        m.can_extract_spec(crew, solid).len() == 0,
{
    if let Some(op) = m.operator {
        let pred = |r: Resource| ShipModule::extracts_spec(m.modtype, crew[op].rank, solid, r);
        let f = all_resources().filter(pred);
        all_resources().filter_lemma(pred);
        if f.len() > 0 {
            assert(pred(f[0]));
        }
    }
}

} // verus!
