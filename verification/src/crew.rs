use std::collections::BTreeMap;

use vstd::prelude::*;

use crate::errors::Errcode;
use crate::ship::module::{ShipModule, ShipModuleId};
use crate::text::{ascii_lower_code, eq_ignore_ascii_case, eq_ignore_ascii_case_spec};

verus! {

/// Identifier of a crew member.
pub type CrewId = u32;

/// The roles a crew member can be hired for.
#[derive(Debug, PartialEq, Eq, Structural, Clone, Copy)]
pub enum CrewMemberType {
    Pilot,
    Operator,
    Trader,
    Soldier,
}

impl CrewMemberType {
    /// The name of the role, as written in the declaration.
    pub open spec fn name_spec(self) -> Seq<char> {
        match self {
            CrewMemberType::Pilot => "Pilot"@,
            CrewMemberType::Operator => "Operator"@,
            CrewMemberType::Trader => "Trader"@,
            CrewMemberType::Soldier => "Soldier"@,
        }
    }

    /// The role with a case-insensitive name `s`, if any.
    pub open spec fn parse_spec(s: Seq<char>) -> Option<CrewMemberType> {
        if eq_ignore_ascii_case_spec(s, "Pilot"@) {
            Some(CrewMemberType::Pilot)
        } else if eq_ignore_ascii_case_spec(s, "Operator"@) {
            Some(CrewMemberType::Operator)
        } else if eq_ignore_ascii_case_spec(s, "Trader"@) {
            Some(CrewMemberType::Trader)
        } else if eq_ignore_ascii_case_spec(s, "Soldier"@) {
            Some(CrewMemberType::Soldier)
        } else {
            None
        }
    }

    /// Parses a role name, ignoring the case of ASCII letters.
    pub fn from_str(s: &str) -> (t: Option<CrewMemberType>)
        ensures
            t == CrewMemberType::parse_spec(s@),
    {
        if eq_ignore_ascii_case(s, "Pilot") {
            Some(CrewMemberType::Pilot)
        } else if eq_ignore_ascii_case(s, "Operator") {
            Some(CrewMemberType::Operator)
        } else if eq_ignore_ascii_case(s, "Trader") {
            Some(CrewMemberType::Trader)
        } else if eq_ignore_ascii_case(s, "Soldier") {
            Some(CrewMemberType::Soldier)
        } else {
            None
        }
    }

    /// The name of the role.
    pub fn name(&self) -> (s: &'static str)
        ensures
            s@ == self.name_spec(),
    {
        match self {
            CrewMemberType::Pilot => "Pilot",
            CrewMemberType::Operator => "Operator",
            CrewMemberType::Trader => "Trader",
            CrewMemberType::Soldier => "Soldier",
        }
    }
}

/// A crew member: its role and its rank.
#[derive(Debug, PartialEq, Eq, Structural, Clone, Copy)]
pub struct CrewMember {
    pub member_type: CrewMemberType,
    pub rank: u8,
}

impl From<CrewMemberType> for CrewMember {
    /// A newly hired member of the given role, at rank 1.
    fn from(member_type: CrewMemberType) -> (cm: CrewMember) {
        CrewMember { member_type, rank: 1 }
    }
}

impl vstd::std_specs::convert::FromSpecImpl<CrewMemberType> for CrewMember {
    open spec fn obeys_from_spec() -> bool {
        true
    }

    open spec fn from_spec(member_type: CrewMemberType) -> CrewMember {
        CrewMember { member_type, rank: 1 }
    }
}

/// A group of crew members, by identifier.
#[derive(Debug)]
pub struct Crew(pub BTreeMap<CrewId, CrewMember>);

impl View for Crew {
    type V = Map<CrewId, CrewMember>;

    open spec fn view(&self) -> Map<CrewId, CrewMember> {
        self.0@
    }
}

impl Crew {
    /// An empty crew.
    pub fn new() -> (c: Crew)
        ensures
            c@ == Map::<CrewId, CrewMember>::empty(),
    {
        Crew(BTreeMap::new())
    }

    /// The member of identifier `id`, if any.
    pub fn get(&self, id: &CrewId) -> (cm: Option<CrewMember>)
        ensures
            cm == (if self@.contains_key(*id) { Some(self@[*id]) } else { None }),
    {
        broadcast use vstd::std_specs::btree::group_btree_axioms;
        assert(vstd::laws_cmp::obeys_cmp::<CrewId>());
        match self.0.get(id) {
            Some(cm) => Some(*cm),
            None => None,
        }
    }

    /// Adds or replaces the member of identifier `id`.
    pub fn insert(&mut self, id: CrewId, cm: CrewMember)
        ensures
            final(self)@ == old(self)@.insert(id, cm),
    {
        broadcast use vstd::std_specs::btree::group_btree_axioms;
        assert(vstd::laws_cmp::obeys_cmp::<CrewId>());
        self.0.insert(id, cm);
    }

    /// Removes the member of identifier `id` and returns it, if it was there.
    pub fn remove(&mut self, id: &CrewId) -> (cm: Option<CrewMember>)
        ensures
            final(self)@ == old(self)@.remove(*id),
            cm == (if old(self)@.contains_key(*id) { Some(old(self)@[*id]) } else { None }),
    {
        broadcast use vstd::std_specs::btree::group_btree_axioms;
        assert(vstd::laws_cmp::obeys_cmp::<CrewId>());
        self.0.remove(id)
    }
}

/// Draws a crew identifier with `rand::random`; nothing is claimed of the
/// value drawn.
#[verifier::external_body]
fn random_crew_id() -> (id: CrewId) {
    rand::random::<CrewId>()
}

/// The crew a player keeps on a station: the idle members, those at work on
/// the station, and the one among them who trades on the station's market.
#[derive(Debug)]
pub struct StationCrew {
    pub idle_crew: Crew,
    pub crew: Crew,
    pub trader: Option<CrewId>,
}

impl StationCrew {
    /// The trader, when there is one, is among the members at work.
    pub open spec fn wf(&self) -> bool {
        self.trader matches Some(t) ==> self.crew@.contains_key(t)
    }

    /// No crew at all.
    pub fn new() -> (sc: StationCrew)
        ensures
            sc.wf(),
            sc.idle_crew@ == Map::<CrewId, CrewMember>::empty(),
            sc.crew@ == Map::<CrewId, CrewMember>::empty(),
            sc.trader is None,
    {
        StationCrew { idle_crew: Crew::new(), crew: Crew::new(), trader: None }
    }

    /// Hires a member of role `crewtype` at rank 1 under a random identifier;
    /// the member stays idle on the station until assigned.
    pub fn hire_crew(&mut self, crewtype: CrewMemberType) -> (id: CrewId)
        requires
            old(self).wf(),
        ensures
            final(self).wf(),
            final(self).idle_crew@ == old(self).idle_crew@.insert(
                id,
                CrewMember { member_type: crewtype, rank: 1 },
            ),
            final(self).crew@ == old(self).crew@,
            final(self).trader == old(self).trader,
    {
        let crewid = random_crew_id();
        let member = CrewMember::from(crewtype);
        self.idle_crew.insert(crewid, member);
        crewid
    }

    /// The member who trades on the station's market.
    pub fn trader_member(&self) -> (r: Result<CrewMember, Errcode>)
        requires
            self.wf(),
        ensures
            self.trader matches Some(t) ==> r == Ok::<CrewMember, Errcode>(self.crew@[t]),
            self.trader is None ==> r == Err::<CrewMember, Errcode>(Errcode::NoTraderAssigned),
    {
        match self.trader {
            Some(t) => match self.crew.get(&t) {
                Some(cm) => Ok(cm),
                None => Err(Errcode::NoTraderAssigned),
            },
            None => Err(Errcode::NoTraderAssigned),
        }
    }

    /// Puts the idle member `id` to work as the station's trader.
    pub fn assign_trader(&mut self, id: CrewId) -> (r: Result<(), Errcode>)
        requires
            old(self).wf(),
        ensures
            final(self).wf(),
            old(self).idle_crew@.contains_key(id) ==> {
                &&& r is Ok
                &&& final(self).idle_crew@ == old(self).idle_crew@.remove(id)
                &&& final(self).crew@ == old(self).crew@.insert(id, old(self).idle_crew@[id])
                &&& final(self).trader == Some(id)
            },
            !old(self).idle_crew@.contains_key(id) ==> {
                &&& r == Err::<(), Errcode>(Errcode::CrewMemberNotIdle(id))
                &&& final(self).idle_crew@ == old(self).idle_crew@
                &&& final(self).crew@ == old(self).crew@
                &&& final(self).trader == old(self).trader
            },
    {
        let cm = match self.idle_crew.remove(&id) {
            Some(cm) => cm,
            None => {
                return Err(Errcode::CrewMemberNotIdle(id));
            },
        };
        self.crew.insert(id, cm);
        self.trader = Some(id);
        Ok(())
    }

    /// Moves the idle member `id` aboard a ship as its pilot.
    pub fn onboard_pilot(
        &mut self,
        id: CrewId,
        ship_pilot: &mut Option<CrewId>,
        ship_crew: &mut Crew,
    ) -> (r: Result<(), Errcode>)
        requires
            old(self).wf(),
        ensures
            final(self).wf(),
            final(self).crew@ == old(self).crew@,
            final(self).trader == old(self).trader,
            r == onboard_pilot_outcome(old(self).idle_crew@, id, *old(ship_pilot)),
            r is Ok ==> old(self).idle_crew@[id].member_type == CrewMemberType::Pilot,
            r is Ok ==> {
                &&& final(self).idle_crew@ == old(self).idle_crew@.remove(id)
                &&& *final(ship_pilot) == Some(id)
                &&& final(ship_crew)@ == old(ship_crew)@.insert(id, old(self).idle_crew@[id])
            },
            r is Err ==> {
                &&& final(self).idle_crew@ == old(self).idle_crew@
                &&& *final(ship_pilot) == *old(ship_pilot)
                &&& final(ship_crew)@ == old(ship_crew)@
            },
    {
        let cm = match self.idle_crew.get(&id) {
            Some(cm) => cm,
            None => {
                return Err(Errcode::CrewMemberNotIdle(id));
            },
        };
        if cm.member_type != CrewMemberType::Pilot {
            return Err(Errcode::WrongCrewType(CrewMemberType::Pilot));
        }
        if ship_pilot.is_some() {
            return Err(Errcode::CrewNotNeeded);
        }
        *ship_pilot = Some(id);
        let cm = self.idle_crew.remove(&id);
        match cm {
            Some(cm) => ship_crew.insert(id, cm),
            None => {},
        }
        Ok(())
    }

    /// Moves the idle member `id` aboard a ship as the operator of its
    /// module `modid`.
    pub fn onboard_operator(
        &mut self,
        id: CrewId,
        modules: &mut BTreeMap<ShipModuleId, ShipModule>,
        modid: &ShipModuleId,
        ship_crew: &mut Crew,
    ) -> (r: Result<(), Errcode>)
        requires
            old(self).wf(),
        ensures
            final(self).wf(),
            final(self).crew@ == old(self).crew@,
            final(self).trader == old(self).trader,
            r == onboard_operator_outcome(old(self).idle_crew@, id, old(modules)@, *modid),
            r is Ok ==> old(self).idle_crew@[id].member_type == CrewMemberType::Operator,
            r is Ok ==> {
                &&& final(self).idle_crew@ == old(self).idle_crew@.remove(id)
                &&& final(modules)@ == old(modules)@.insert(
                    *modid,
                    ShipModule { operator: Some(id), ..old(modules)@[*modid] },
                )
                &&& final(ship_crew)@ == old(ship_crew)@.insert(id, old(self).idle_crew@[id])
            },
            r is Err ==> {
                &&& final(self).idle_crew@ == old(self).idle_crew@
                &&& final(modules)@ == old(modules)@
                &&& final(ship_crew)@ == old(ship_crew)@
            },
    {
        broadcast use vstd::std_specs::btree::group_btree_axioms;
        assert(vstd::laws_cmp::obeys_cmp::<ShipModuleId>());
        let cm = match self.idle_crew.get(&id) {
            Some(cm) => cm,
            None => {
                return Err(Errcode::CrewMemberNotIdle(id));
            },
        };
        if cm.member_type != CrewMemberType::Operator {
            return Err(Errcode::WrongCrewType(CrewMemberType::Operator));
        }
        let smod = match modules.get(modid) {
            Some(smod) => *smod,
            None => {
                return Err(Errcode::NoSuchModule(*modid));
            },
        };
        if !smod.need(&cm.member_type) {
            return Err(Errcode::CrewNotNeeded);
        }
        modules.insert(*modid, ShipModule { operator: Some(id), ..smod });
        let cm = self.idle_crew.remove(&id);
        match cm {
            Some(cm) => ship_crew.insert(id, cm),
            None => {},
        }
        Ok(())
    }
}

/// What boarding the idle member `id` as a ship's pilot answers.
pub open spec fn onboard_pilot_outcome(
    idle: Map<CrewId, CrewMember>,
    id: CrewId,
    pilot: Option<CrewId>,
) -> Result<(), Errcode> {
    if !idle.contains_key(id) {
        Err(Errcode::CrewMemberNotIdle(id))
    } else if idle[id].member_type != CrewMemberType::Pilot {
        Err(Errcode::WrongCrewType(CrewMemberType::Pilot))
    } else if pilot is Some {
        Err(Errcode::CrewNotNeeded)
    } else {
        Ok(())
    }
}

/// What boarding the idle member `id` as the operator of module `modid`
/// answers. A member of another role is refused with the role the module
/// requires, the operator, named.
pub open spec fn onboard_operator_outcome(
    idle: Map<CrewId, CrewMember>,
    id: CrewId,
    modules: Map<ShipModuleId, ShipModule>,
    modid: ShipModuleId,
) -> Result<(), Errcode> {
    if !idle.contains_key(id) {
        Err(Errcode::CrewMemberNotIdle(id))
    } else if idle[id].member_type != CrewMemberType::Operator {
        Err(Errcode::WrongCrewType(CrewMemberType::Operator))
    } else if !modules.contains_key(modid) {
        Err(Errcode::NoSuchModule(modid))
    } else if !modules[modid].need_spec(idle[id].member_type) {
        Err(Errcode::CrewNotNeeded)
    } else {
        Ok(())
    }
}


/// Only an idle pilot boards a ship as its pilot, and only when the ship has
/// none; a member of another role is refused with the pilot role named.
pub proof fn law_pilot_boarding(idle: Map<CrewId, CrewMember>, id: CrewId, pilot: Option<CrewId>)
    ensures
        onboard_pilot_outcome(idle, id, pilot) is Ok <==> (idle.contains_key(id)
            && idle[id].member_type == CrewMemberType::Pilot && pilot is None),
        idle.contains_key(id) && idle[id].member_type != CrewMemberType::Pilot
            ==> onboard_pilot_outcome(idle, id, pilot) == Err::<(), Errcode>(
            Errcode::WrongCrewType(CrewMemberType::Pilot),
        ),
        !idle.contains_key(id) ==> onboard_pilot_outcome(idle, id, pilot) == Err::<(), Errcode>(
            Errcode::CrewMemberNotIdle(id),
        ),
{
}

/// Only an idle operator becomes the operator of a module, and only of a
/// module of the ship that has no operator yet; a member of another role is
/// refused with the operator role named.
pub proof fn law_operator_boarding(
    idle: Map<CrewId, CrewMember>,
    id: CrewId,
    modules: Map<ShipModuleId, ShipModule>,
    modid: ShipModuleId,
)
    ensures
        onboard_operator_outcome(idle, id, modules, modid) is Ok <==> (idle.contains_key(id)
            && idle[id].member_type == CrewMemberType::Operator && modules.contains_key(modid)
            && modules[modid].operator is None),
        idle.contains_key(id) && idle[id].member_type != CrewMemberType::Operator
            ==> onboard_operator_outcome(idle, id, modules, modid) == Err::<(), Errcode>(
            Errcode::WrongCrewType(CrewMemberType::Operator),
        ),
{
}

/// A role's name parses back to the role, whatever the case of its ASCII
/// letters.
pub proof fn law_crew_type_name_parses(c: CrewMemberType, s: Seq<char>)
    requires
        eq_ignore_ascii_case_spec(s, c.name_spec()),
    ensures
        CrewMemberType::parse_spec(s) == Some(c),
{
    reveal_strlit("Pilot");
    reveal_strlit("Operator");
    reveal_strlit("Trader");
    reveal_strlit("Soldier");
    assert(ascii_lower_code(s[0]) == ascii_lower_code(c.name_spec()[0]));
}

} // verus!
