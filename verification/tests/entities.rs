use galaxygen::{
    Body, BodyTypes, DwarfMoon, DwarfPlanet, GalacticPosition, Galaxy, GalaxyType, HardBodyTypes,
    Moon, Planet, PlanetTypes, Star, StarTypes,
};

#[test]
fn constructors_keep_their_fields() {
    let star = Star::new("Altair".to_string(), StarTypes::A, 77);
    assert_eq!(star.name, "Altair");
    assert_eq!(star.star_type, StarTypes::A);
    assert_eq!(star.seed, 77);

    let galaxy = Galaxy::new("Milky Way".to_string(), GalaxyType::Spiral, 42);
    assert_eq!(galaxy.name, "Milky Way");
    assert!(matches!(galaxy.galaxy_type, GalaxyType::Spiral));
    assert_eq!(galaxy.seed, 42);

    let pos = GalacticPosition::new((3.5f64).to_bits(), (-1.25f64).to_bits());
    assert_eq!(f64::from_bits(pos.x), 3.5);
    assert_eq!(f64::from_bits(pos.y), -1.25);
}

#[test]
fn negative_measurements_are_rejected() {
    let neg = (-1.0f64).to_bits();
    let pos = (1.0f64).to_bits();
    assert!(Moon::new("m".to_string(), HardBodyTypes::Ice, 1, neg, pos).is_err());
    assert!(Moon::new("m".to_string(), HardBodyTypes::Ice, 1, pos, neg).is_err());
    assert!(Moon::new("m".to_string(), HardBodyTypes::Ice, 1, pos, pos).is_ok());
    assert!(Planet::new("p".to_string(), PlanetTypes::Barren, 2, neg, pos).is_err());
    assert!(Planet::new("p".to_string(), PlanetTypes::Barren, 2, pos, pos).is_ok());
    assert!(DwarfPlanet::new("d".to_string(), HardBodyTypes::Ammonia, 3, neg, neg).is_err());
    assert!(DwarfPlanet::new("d".to_string(), HardBodyTypes::Ammonia, 3, 0, 0).is_ok());
    assert!(DwarfMoon::new("w".to_string(), HardBodyTypes::Other, 4, pos, neg).is_err());
    assert!(DwarfMoon::new("w".to_string(), HardBodyTypes::Other, 4, pos, pos).is_ok());
}

#[test]
fn body_kinds_are_reported() {
    let star = Star::new(String::new(), StarTypes::G, 1);
    let moon = Moon::new(String::new(), HardBodyTypes::Rocky, 2, 0, 0).unwrap();
    let planet = Planet::new(String::new(), PlanetTypes::Terrestrial, 3, 0, 0).unwrap();
    let dwarf_planet = DwarfPlanet::new(String::new(), HardBodyTypes::Ice, 4, 0, 0).unwrap();
    let dwarf_moon = DwarfMoon::new(String::new(), HardBodyTypes::Iron, 5, 0, 0).unwrap();
    assert_eq!(star.get_type(), BodyTypes::Star);
    assert_eq!(moon.get_type(), BodyTypes::Moon);
    assert_eq!(planet.get_type(), BodyTypes::Planet);
    assert_eq!(dwarf_planet.get_type(), BodyTypes::DwarfPlanet);
    assert_eq!(dwarf_moon.get_type(), BodyTypes::DwarfMoon);
}

#[test]
fn moons_keep_insertion_order() {
    let mut planet = Planet::new("Jupiter".to_string(), PlanetTypes::GasGiant, 6, 0, 0).unwrap();
    assert_eq!(planet.moons.len(), 0);
    for (i, name) in ["Io", "Europa", "Ganymede", "Callisto"].iter().enumerate() {
        let moon =
            Moon::new(name.to_string(), HardBodyTypes::Rocky, 100 + i as u64, 0, 0).unwrap();
        planet.add_moon(moon);
    }
    let names: Vec<&str> = planet.moons.iter().map(|m| m.name.as_str()).collect();
    assert_eq!(names, vec!["Io", "Europa", "Ganymede", "Callisto"]);
}
