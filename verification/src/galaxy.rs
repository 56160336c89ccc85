use std::collections::BTreeMap;
use std::sync::Arc;

use vstd::prelude::*;

use crate::ship::resources::Resource;

pub mod scan;

verus! {

/// One coordinate of a position in space.
pub type SpaceUnit = u32;

/// A position in space.
pub type SpaceCoord = (SpaceUnit, SpaceUnit, SpaceUnit);

/// Identifier of a station.
pub type StationId = u16;

/// A planet, where ships extract resources.
#[derive(Debug, PartialEq, Eq, Clone, Copy)]
pub struct Planet {
    pub position: SpaceCoord,
    temperature: u16,
    solid: bool,
}

impl Planet {
    /// The planet's position.
    pub closed spec fn position_spec(&self) -> SpaceCoord {
        self.position
    }

    /// The planet's temperature.
    pub closed spec fn temperature_spec(&self) -> u16 {
        self.temperature
    }

    /// Whether the planet is solid (else gaseous).
    pub closed spec fn solid_spec(&self) -> bool {
        self.solid
    }

    /// A planet at `position`, of the given temperature and kind.
    pub fn new(position: SpaceCoord, temperature: u16, solid: bool) -> (p: Planet)
        ensures
            p.position_spec() == position,
            p.temperature_spec() == temperature,
            p.solid_spec() == solid,
    {
        Planet { position, temperature, solid }
    }

    /// The planet's temperature.
    pub fn temperature(&self) -> (t: u16)
        ensures
            t == self.temperature_spec(),
    {
        self.temperature
    }

    /// Whether the planet is solid (else gaseous).
    pub fn solid(&self) -> (b: bool)
        ensures
            b == self.solid_spec(),
    {
        self.solid
    }

    /// How much of `resource` the planet holds.
    pub fn resource_density(&self, resource: &Resource) -> (d: u8)
        ensures
            d == density_spec(self.solid_spec(), *resource),
    {
        if self.solid {
            match resource {
                Resource::Stone => 3,
                Resource::Iron => 1,
                _ => 0,
            }
        } else {
            match resource {
                Resource::Helium => 3,
                Resource::Ozone => 1,
                _ => 0,
            }
        }
    }
}

/// How much of `r` a planet holds, in whole units: a solid planet holds
/// stone and, less of it, iron; a gaseous one helium and, less of it, ozone.
pub open spec fn density_spec(solid: bool, r: Resource) -> u8 {
    if solid {
        match r {
            Resource::Stone => 3,
            Resource::Iron => 1,
            _ => 0,
        }
    } else {
        match r {
            Resource::Helium => 3,
            Resource::Ozone => 1,
            _ => 0,
        }
    }
}

/// A solid planet holds stone and iron and nothing else, three times as
/// much stone as iron; a gaseous planet holds helium and ozone and nothing
/// else, three times as much helium as ozone.
pub proof fn law_planet_holdings(solid: bool, r: Resource)
    ensures
        density_spec(solid, r) > 0 <==> (solid && (r is Stone || r is Iron)) || (!solid && (
        r is Helium || r is Ozone)),
        density_spec(true, Resource::Stone) == 3 * density_spec(true, Resource::Iron),
        density_spec(true, Resource::Iron) == 1,
        density_spec(false, Resource::Helium) == 3 * density_spec(false, Resource::Ozone),
        density_spec(false, Resource::Ozone) == 1,
{
}

/// What a scan shows of a planet.
#[derive(Debug, PartialEq, Eq, Clone, Copy)]
pub struct PlanetInfo {
    pub position: SpaceCoord,
    pub temperature: u16,
    pub solid: bool,
}

impl PlanetInfo {
    /// Scans `planet`; every scanner rank sees its position, temperature and kind.
    pub fn scan(_rank: u8, planet: &Planet) -> (info: PlanetInfo)
        ensures
            info.position == planet.position_spec(),
            info.temperature == planet.temperature_spec(),
            info.solid == planet.solid_spec(),
    {
        PlanetInfo { position: planet.position, temperature: planet.temperature, solid: planet.solid }
    }
}

/// What a scan shows of a station.
#[derive(Debug, PartialEq, Eq, Clone, Copy)]
pub struct StationInfo {
    pub id: StationId,
    pub position: SpaceCoord,
}

/// An object that occupies a position in space: a station (of type `S`) or
/// a planet.
#[derive(Debug)]
pub enum SpaceObject<S> {
    BaseStation(S),
    Planet(Planet),
}

/// A second handle on the object that `a` points to, made by std's
/// `Arc::clone`; trusted to point to the same value, as std documents it.
#[verifier::external_body]
fn share<T>(a: &Arc<T>) -> (b: Arc<T>)
    ensures
        b == *a,
{
    Arc::clone(a)
}

/// The objects of the galaxy, indexed by their coordinates.
pub struct Galaxy<S>(BTreeMap<SpaceUnit, BTreeMap<SpaceUnit, BTreeMap<SpaceUnit, Arc<SpaceObject<S>>>>>);

impl<S> View for Galaxy<S> {
    type V = Map<SpaceCoord, SpaceObject<S>>;

    closed spec fn view(&self) -> Map<SpaceCoord, SpaceObject<S>> {
        Map::new(
            |c: SpaceCoord|
                self.0@.contains_key(c.0) && self.0@[c.0]@.contains_key(c.1)
                    && self.0@[c.0]@[c.1]@.contains_key(c.2),
            |c: SpaceCoord| *self.0@[c.0]@[c.1]@[c.2],
        )
    }
}

impl<S> Galaxy<S> {
    /// An empty galaxy.
    pub fn init() -> (g: Galaxy<S>)
        ensures
            g@ == Map::<SpaceCoord, SpaceObject<S>>::empty(),
    {
        let g = Galaxy(BTreeMap::new());
        assert(g@ =~= Map::<SpaceCoord, SpaceObject<S>>::empty());
        g
    }

    /// Places `obj` at `coord`, which must be free.
    pub fn insert_space_object(&mut self, coord: SpaceCoord, obj: SpaceObject<S>)
        requires
            !old(self)@.contains_key(coord),
        ensures
            final(self)@ == old(self)@.insert(coord, obj),
    {
        broadcast use vstd::std_specs::btree::group_btree_axioms;
        assert(vstd::laws_cmp::obeys_cmp::<SpaceUnit>());
        let ghost before = self@;
        let (x, y, z) = coord;
        let obj = Arc::new(obj);
        match self.0.remove(&x) {
            Some(mut ydata) => {
                match ydata.remove(&y) {
                    Some(mut zdata) => {
                        zdata.insert(z, obj);
                        ydata.insert(y, zdata);
                    },
                    None => {
                        let mut zdata = BTreeMap::new();
                        zdata.insert(z, obj);
                        ydata.insert(y, zdata);
                    },
                }
                self.0.insert(x, ydata);
            },
            None => {
                let mut zdata = BTreeMap::new();
                zdata.insert(z, obj);
                let mut ydata = BTreeMap::new();
                ydata.insert(y, zdata);
                self.0.insert(x, ydata);
            },
        }
        assert(self@ =~= before.insert(coord, *obj));
    }

    /// The object at `coord`, if any.
    pub fn get_space_object(&self, coord: SpaceCoord) -> (o: Option<Arc<SpaceObject<S>>>)
        ensures
            self@.contains_key(coord) ==> (o matches Some(a) && *a == self@[coord]),
            !self@.contains_key(coord) ==> o is None,
    {
        broadcast use vstd::std_specs::btree::group_btree_axioms;
        assert(vstd::laws_cmp::obeys_cmp::<SpaceUnit>());
        let (x, y, z) = coord;
        let ydata = match self.0.get(&x) {
            Some(d) => d,
            None => {
                return None;
            },
        };
        let zdata = match ydata.get(&y) {
            Some(d) => d,
            None => {
                return None;
            },
        };
        match zdata.get(&z) {
            Some(a) => Some(share(a)),
            None => None,
        }
    }
}

/// Once an object is placed at a free coordinate, it is found there, and
/// every other coordinate holds what it held before.
pub proof fn law_galaxy_insert_get<S>(
    before: Galaxy<S>,
    after: Galaxy<S>,
    coord: SpaceCoord,
    obj: SpaceObject<S>,
    other: SpaceCoord,
)
    requires
        !before@.contains_key(coord),
        after@ == before@.insert(coord, obj),
    ensures
        after@.contains_key(coord),
        after@[coord] == obj,
        other != coord ==> after@.contains_key(other) == before@.contains_key(other),
        other != coord && before@.contains_key(other) ==> after@[other] == before@[other],
{
}

} // verus!
