//! The entity model: typed records for the concrete celestial bodies and
//! their classification enumerations, plus the shared "has a body kind"
//! capability.
//!
//! Physical measurements (radius in kilometers, mass in kilograms) and
//! galactic coordinates (light-years) are real-valued quantities; the library
//! stores each one as the bit pattern of an IEEE 754 double-precision value,
//! which keeps the record a plain value the contracts can speak about. A
//! measurement is valid when its sign bit is clear, i.e. it denotes a
//! non-negative value; constructors reject anything else.

use vstd::prelude::*;

verus! {

/// The closed classification tag that every concrete body reports.
#[derive(Clone, Copy, Debug, PartialEq, Eq, Structural)]
pub enum BodyTypes {
    Star,
    Planet,
    Moon,
    Asteroid,
    Comet,
    DwarfPlanet,
    DwarfMoon,
    BlackHole,
    Other,
}

/// Spectral classification of a star.
#[derive(Clone, Copy, Debug, PartialEq, Eq, Structural)]
pub enum StarTypes {
    O,
    B,
    A,
    F,
    G,
    K,
    M,
    Neutron,
    Pulsar,
    Supernova,
    Other,
}

/// Composition classification of a planet.
#[derive(Clone, Copy, Debug, PartialEq, Eq, Structural)]
pub enum PlanetTypes {
    GasGiant,
    Terrestrial,
    IceGiant,
    Rocky,
    Barren,
    Desert,
    Ocean,
    Other,
}

/// Material classification of a solid small body (moons, dwarf planets,
/// dwarf moons).
#[derive(Clone, Copy, Debug, PartialEq, Eq, Structural)]
pub enum HardBodyTypes {
    Rocky,
    Ice,
    Water,
    Ammonia,
    Iron,
    Other,
}

/// The bit patterns of non-negative IEEE 754 doubles are exactly those with
/// the sign bit clear.
pub open spec fn non_negative_bits(b: u64) -> bool {
    b < 0x8000_0000_0000_0000u64
}

/// Error returned by a constructor that was handed a measurement with the
/// sign bit set (a negative radius or mass).
#[derive(Clone, Copy, Debug, PartialEq, Eq, Structural)]
pub struct InvalidAttribute;

/// The shared capability: every concrete body reports one `BodyTypes` tag,
/// so heterogeneous bodies can be treated uniformly without inheritance.
pub trait Body {
    /// The tag this kind of body reports, as a mathematical value.
    spec fn body_kind(&self) -> BodyTypes;

    /// Report the body's classification tag.
    fn get_type(&self) -> (t: BodyTypes)
        ensures
            t == self.body_kind(),
    ;
}

/// A star: a leaf of a galaxy, identified by its own derived seed.
pub struct Star {
    pub name: String,
    pub star_type: StarTypes,
    pub seed: u64,
}

/// The mathematical value of a `Star`.
#[verifier::ext_equal]
pub struct StarV {
    pub name: Seq<char>,
    pub star_type: StarTypes,
    pub seed: u64,
}

impl View for Star {
    type V = StarV;

    open spec fn view(&self) -> StarV {
        StarV { name: self.name@, star_type: self.star_type, seed: self.seed }
    }
}

impl Star {
    /// Total constructor: a star holds exactly the fields it was given.
    pub fn new(name: String, star_type: StarTypes, seed: u64) -> (s: Star)
        ensures
            s@ == (StarV { name: name@, star_type, seed }),
    {
        Star { name, star_type, seed }
    }
}

impl Body for Star {
    open spec fn body_kind(&self) -> BodyTypes {
        BodyTypes::Star
    }

    fn get_type(&self) -> (t: BodyTypes) {
        BodyTypes::Star
    }
}

/// The mathematical value shared by the solid small bodies (`Moon`,
/// `DwarfPlanet`, `DwarfMoon`): they carry the same fields.
#[verifier::ext_equal]
pub struct HardBodyV {
    pub name: Seq<char>,
    pub hard_body_type: HardBodyTypes,
    pub seed: u64,
    pub radius: u64,
    pub mass: u64,
}

impl HardBodyV {
    /// A small body is well formed when its measurements are non-negative.
    pub open spec fn wf(self) -> bool {
        non_negative_bits(self.radius) && non_negative_bits(self.mass)
    }
}

/// A moon: a leaf of a planet. `radius` and `mass` hold the bit patterns of
/// the measurements in kilometers and kilograms.
pub struct Moon {
    pub name: String,
    pub hard_body_type: HardBodyTypes,
    pub seed: u64,
    pub radius: u64,
    pub mass: u64,
}

impl View for Moon {
    type V = HardBodyV;

    open spec fn view(&self) -> HardBodyV {
        HardBodyV {
            name: self.name@,
            hard_body_type: self.hard_body_type,
            seed: self.seed,
            radius: self.radius,
            mass: self.mass,
        }
    }
}

impl Moon {
    /// Total over valid measurements: succeeds exactly when both measurements
    /// are non-negative, and then holds exactly the fields it was given.
    pub fn new(name: String, hard_body_type: HardBodyTypes, seed: u64, radius: u64, mass: u64) -> (r:
        Result<Moon, InvalidAttribute>)
        ensures
            r is Ok <==> non_negative_bits(radius) && non_negative_bits(mass),
            r matches Ok(m) ==> m@ == (HardBodyV { name: name@, hard_body_type, seed, radius, mass })
                && m@.wf(),
    {
        if radius < 0x8000_0000_0000_0000u64 && mass < 0x8000_0000_0000_0000u64 {
            Ok(Moon { name, hard_body_type, seed, radius, mass })
        } else {
            Err(InvalidAttribute)
        }
    }
}

impl Body for Moon {
    open spec fn body_kind(&self) -> BodyTypes {
        BodyTypes::Moon
    }

    fn get_type(&self) -> (t: BodyTypes) {
        BodyTypes::Moon
    }
}

/// A dwarf planet: an independent small-body class, not yet linked into the
/// hierarchy. Fields as for `Moon`.
pub struct DwarfPlanet {
    pub name: String,
    pub hard_body_type: HardBodyTypes,
    pub seed: u64,
    pub radius: u64,
    pub mass: u64,
}

impl View for DwarfPlanet {
    type V = HardBodyV;

    open spec fn view(&self) -> HardBodyV {
        HardBodyV {
            name: self.name@,
            hard_body_type: self.hard_body_type,
            seed: self.seed,
            radius: self.radius,
            mass: self.mass,
        }
    }
}

impl DwarfPlanet {
    /// Total over valid measurements: succeeds exactly when both measurements
    /// are non-negative, and then holds exactly the fields it was given.
    pub fn new(name: String, hard_body_type: HardBodyTypes, seed: u64, radius: u64, mass: u64) -> (r:
        Result<DwarfPlanet, InvalidAttribute>)
        ensures
            r is Ok <==> non_negative_bits(radius) && non_negative_bits(mass),
            r matches Ok(m) ==> m@ == (HardBodyV { name: name@, hard_body_type, seed, radius, mass })
                && m@.wf(),
    {
        if radius < 0x8000_0000_0000_0000u64 && mass < 0x8000_0000_0000_0000u64 {
            Ok(DwarfPlanet { name, hard_body_type, seed, radius, mass })
        } else {
            Err(InvalidAttribute)
        }
    }
}

impl Body for DwarfPlanet {
    open spec fn body_kind(&self) -> BodyTypes {
        BodyTypes::DwarfPlanet
    }

    fn get_type(&self) -> (t: BodyTypes) {
        BodyTypes::DwarfPlanet
    }
}

/// A dwarf moon: an independent small-body class, not yet linked into the
/// hierarchy. Fields as for `Moon`.
pub struct DwarfMoon {
    pub name: String,
    pub hard_body_type: HardBodyTypes,
    pub seed: u64,
    pub radius: u64,
    pub mass: u64,
}

impl View for DwarfMoon {
    type V = HardBodyV;

    open spec fn view(&self) -> HardBodyV {
        HardBodyV {
            name: self.name@,
            hard_body_type: self.hard_body_type,
            seed: self.seed,
            radius: self.radius,
            mass: self.mass,
        }
    }
}

impl DwarfMoon {
    /// Total over valid measurements: succeeds exactly when both measurements
    /// are non-negative, and then holds exactly the fields it was given.
    pub fn new(name: String, hard_body_type: HardBodyTypes, seed: u64, radius: u64, mass: u64) -> (r:
        Result<DwarfMoon, InvalidAttribute>)
        ensures
            r is Ok <==> non_negative_bits(radius) && non_negative_bits(mass),
            r matches Ok(m) ==> m@ == (HardBodyV { name: name@, hard_body_type, seed, radius, mass })
                && m@.wf(),
    {
        if radius < 0x8000_0000_0000_0000u64 && mass < 0x8000_0000_0000_0000u64 {
            Ok(DwarfMoon { name, hard_body_type, seed, radius, mass })
        } else {
            Err(InvalidAttribute)
        }
    }
}

impl Body for DwarfMoon {
    open spec fn body_kind(&self) -> BodyTypes {
        BodyTypes::DwarfMoon
    }

    fn get_type(&self) -> (t: BodyTypes) {
        BodyTypes::DwarfMoon
    }
}

/// The mathematical value of a `Planet`.
#[verifier::ext_equal]
pub struct PlanetV {
    pub name: Seq<char>,
    pub planet_type: PlanetTypes,
    pub seed: u64,
    pub radius: u64,
    pub mass: u64,
    pub moons: Seq<HardBodyV>,
}

impl PlanetV {
    /// A planet is well formed when its own measurements and those of all of
    /// its moons are non-negative.
    pub open spec fn wf(self) -> bool {
        &&& non_negative_bits(self.radius)
        &&& non_negative_bits(self.mass)
        &&& forall|i: int| 0 <= i < self.moons.len() ==> (#[trigger] self.moons[i]).wf()
    }
}

/// A planet: owns an ordered sequence of moons, in which insertion order is
/// generation order and is kept. `radius` and `mass` as for `Moon`.
pub struct Planet {
    pub name: String,
    pub planet_type: PlanetTypes,
    pub seed: u64,
    pub radius: u64,
    pub mass: u64,
    pub moons: Vec<Moon>,
}

impl View for Planet {
    type V = PlanetV;

    open spec fn view(&self) -> PlanetV {
        PlanetV {
            name: self.name@,
            planet_type: self.planet_type,
            seed: self.seed,
            radius: self.radius,
            mass: self.mass,
            moons: self.moons@.map_values(|m: Moon| m@),
        }
    }
}

impl Planet {
    /// Total over valid measurements: succeeds exactly when both measurements
    /// are non-negative, and then holds exactly the fields it was given, with
    /// no moons yet.
    pub fn new(name: String, planet_type: PlanetTypes, seed: u64, radius: u64, mass: u64) -> (r:
        Result<Planet, InvalidAttribute>)
        ensures
            r is Ok <==> non_negative_bits(radius) && non_negative_bits(mass),
            r matches Ok(p) ==> p@ == (PlanetV {
                name: name@,
                planet_type,
                seed,
                radius,
                mass,
                moons: Seq::<HardBodyV>::empty(),
            }) && p@.wf(),
    {
        if radius < 0x8000_0000_0000_0000u64 && mass < 0x8000_0000_0000_0000u64 {
            let p = Planet { name, planet_type, seed, radius, mass, moons: Vec::new() };
            proof {
                assert(p@.moons =~= Seq::<HardBodyV>::empty());
                assert(p@ =~= (PlanetV {
                    name: name@,
                    planet_type,
                    seed,
                    radius,
                    mass,
                    moons: Seq::<HardBodyV>::empty(),
                }));
            }
            Ok(p)
        } else {
            Err(InvalidAttribute)
        }
    }

    /// The one permitted mutation: append a moon. The moon sequence grows by
    /// exactly the given moon at the end; every other field is unchanged, so
    /// insertion order is kept.
    pub fn add_moon(&mut self, moon: Moon)
        ensures
            final(self)@.moons == old(self)@.moons.push(moon@),
            final(self)@.name == old(self)@.name,
            final(self)@.planet_type == old(self)@.planet_type,
            final(self)@.seed == old(self)@.seed,
            final(self)@.radius == old(self)@.radius,
            final(self)@.mass == old(self)@.mass,
            old(self)@.wf() && moon@.wf() ==> final(self)@.wf(),
    {
        let ghost before = self@.moons;
        let ghost mv = moon@;
        self.moons.push(moon);
        proof {
            assert(self@.moons =~= before.push(mv));
        }
    }
}

impl Body for Planet {
    open spec fn body_kind(&self) -> BodyTypes {
        BodyTypes::Planet
    }

    fn get_type(&self) -> (t: BodyTypes) {
        BodyTypes::Planet
    }
}

/// A 2D galactic coordinate used to parameterize "nearby" queries. `x` and
/// `y` hold the bit patterns of the coordinates in light-years.
pub struct GalacticPosition {
    pub x: u64,
    pub y: u64,
}

impl GalacticPosition {
    /// Total constructor: a position holds exactly the coordinates it was
    /// given.
    pub fn new(x: u64, y: u64) -> (p: GalacticPosition)
        ensures
            p.x == x,
            p.y == y,
    {
        GalacticPosition { x, y }
    }
}

} // verus!
