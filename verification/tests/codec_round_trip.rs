use galaxygen::codec::{
    decode_dwarf_moon, decode_dwarf_planet, decode_moon, decode_planet, decode_star,
    encode_dwarf_moon, encode_dwarf_planet, encode_moon, encode_planet, encode_star,
};
use galaxygen::{
    DwarfMoon, DwarfPlanet, HardBodyTypes, Moon, Planet, PlanetTypes, Star, StarTypes,
};

#[test]
fn star_exact_encoding() {
    let star = Star::new("AB".to_string(), StarTypes::O, 255);
    let encoded = encode_star(&star);
    let mut expected: Vec<char> = Vec::new();
    expected.push('*');
    expected.extend("0000000000000002".chars());
    expected.extend("AB".chars());
    expected.push('O');
    expected.extend("00000000000000ff".chars());
    assert_eq!(encoded, expected);
}

#[test]
fn star_round_trip() {
    let cases = vec![
        ("".to_string(), StarTypes::O, 0u64),
        ("Sirius".to_string(), StarTypes::A, u64::MAX),
        ("小さな星 *O".to_string(), StarTypes::Pulsar, 0xdead_beef_0123_4567),
    ];
    for (name, ty, seed) in cases {
        let star = Star::new(name.clone(), ty, seed);
        let encoded = encode_star(&star);
        let back = decode_star(&encoded).expect("a star encoding must decode");
        assert_eq!(back.name, name);
        assert_eq!(back.star_type, ty);
        assert_eq!(back.seed, seed);
    }
}

#[test]
fn star_decode_rejects_bad_input() {
    let star = Star::new("Vega".to_string(), StarTypes::A, 7);
    let good = encode_star(&star);
    assert!(decode_star(&good).is_some());

    let mut wrong_tag = good.clone();
    wrong_tag[0] = 'Q';
    assert!(decode_star(&wrong_tag).is_none());

    let mut truncated = good.clone();
    truncated.pop();
    assert!(decode_star(&truncated).is_none());

    let mut trailing = good.clone();
    trailing.push('!');
    assert!(decode_star(&trailing).is_none());

    let mut bad_digit = good.clone();
    bad_digit[1] = 'z';
    assert!(decode_star(&bad_digit).is_none());

    assert!(decode_star(&Vec::new()).is_none());
}

#[test]
fn moon_round_trip() {
    let radius = (1737.4f64).to_bits();
    let mass = (7.342e22f64).to_bits();
    let moon = Moon::new("Luna".to_string(), HardBodyTypes::Rocky, 11, radius, mass)
        .expect("non-negative measurements");
    let encoded = encode_moon(&moon);
    let back = decode_moon(&encoded).expect("a moon encoding must decode");
    assert_eq!(back.name, "Luna");
    assert_eq!(back.hard_body_type, HardBodyTypes::Rocky);
    assert_eq!(back.seed, 11);
    assert_eq!(f64::from_bits(back.radius), 1737.4);
    assert_eq!(f64::from_bits(back.mass), 7.342e22);
}

#[test]
fn dwarf_planet_round_trip() {
    let body = DwarfPlanet::new(
        "Ceres".to_string(),
        HardBodyTypes::Ice,
        13,
        (473.0f64).to_bits(),
        (9.38e20f64).to_bits(),
    )
    .expect("non-negative measurements");
    let encoded = encode_dwarf_planet(&body);
    let back = decode_dwarf_planet(&encoded).expect("a dwarf-planet encoding must decode");
    assert_eq!(back.name, "Ceres");
    assert_eq!(back.hard_body_type, HardBodyTypes::Ice);
    assert_eq!(back.seed, 13);
    assert_eq!(f64::from_bits(back.radius), 473.0);
    assert_eq!(f64::from_bits(back.mass), 9.38e20);
}

#[test]
fn dwarf_moon_round_trip() {
    let body = DwarfMoon::new(
        "S/2015".to_string(),
        HardBodyTypes::Iron,
        17,
        (1.5f64).to_bits(),
        (2.5e12f64).to_bits(),
    )
    .expect("non-negative measurements");
    let encoded = encode_dwarf_moon(&body);
    let back = decode_dwarf_moon(&encoded).expect("a dwarf-moon encoding must decode");
    assert_eq!(back.name, "S/2015");
    assert_eq!(back.hard_body_type, HardBodyTypes::Iron);
    assert_eq!(back.seed, 17);
    assert_eq!(f64::from_bits(back.radius), 1.5);
    assert_eq!(f64::from_bits(back.mass), 2.5e12);
}

#[test]
fn record_kinds_do_not_cross_decode() {
    let moon = Moon::new("m".to_string(), HardBodyTypes::Rocky, 1, 0, 0).unwrap();
    let encoded = encode_moon(&moon);
    assert!(decode_moon(&encoded).is_some());
    assert!(decode_dwarf_planet(&encoded).is_none());
    assert!(decode_dwarf_moon(&encoded).is_none());
    assert!(decode_star(&encoded).is_none());
    assert!(decode_planet(&encoded).is_none());
}

#[test]
fn planet_round_trip_without_moons() {
    let planet = Planet::new(
        "Mercury".to_string(),
        PlanetTypes::Rocky,
        3,
        (2439.7f64).to_bits(),
        (3.3011e23f64).to_bits(),
    )
    .expect("non-negative measurements");
    let encoded = encode_planet(&planet);
    let back = decode_planet(&encoded).expect("a planet encoding must decode");
    assert_eq!(back.name, "Mercury");
    assert_eq!(back.planet_type, PlanetTypes::Rocky);
    assert_eq!(back.seed, 3);
    assert_eq!(back.moons.len(), 0);
}

#[test]
fn planet_round_trip_with_moons() {
    let mut planet = Planet::new(
        "Mars".to_string(),
        PlanetTypes::Desert,
        4,
        (3389.5f64).to_bits(),
        (6.4171e23f64).to_bits(),
    )
    .expect("non-negative measurements");
    let phobos =
        Moon::new("Phobos".to_string(), HardBodyTypes::Rocky, 41, (11.08f64).to_bits(), 0).unwrap();
    let deimos =
        Moon::new("Deimos".to_string(), HardBodyTypes::Rocky, 42, (6.27f64).to_bits(), 0).unwrap();
    planet.add_moon(phobos);
    planet.add_moon(deimos);
    let encoded = encode_planet(&planet);
    let back = decode_planet(&encoded).expect("a planet encoding must decode");
    assert_eq!(back.name, "Mars");
    assert_eq!(back.planet_type, PlanetTypes::Desert);
    assert_eq!(back.moons.len(), 2);
    assert_eq!(back.moons[0].name, "Phobos");
    assert_eq!(back.moons[0].seed, 41);
    assert_eq!(back.moons[1].name, "Deimos");
    assert_eq!(back.moons[1].seed, 42);
}

#[test]
fn planet_decode_rejects_bad_input() {
    let mut planet =
        Planet::new("P".to_string(), PlanetTypes::Ocean, 9, 0, 0).expect("zero is non-negative");
    planet.add_moon(Moon::new("m".to_string(), HardBodyTypes::Water, 10, 0, 0).unwrap());
    let good = encode_planet(&planet);
    assert!(decode_planet(&good).is_some());

    let mut truncated = good.clone();
    truncated.pop();
    assert!(decode_planet(&truncated).is_none());

    let mut trailing = good.clone();
    trailing.push('0');
    assert!(decode_planet(&trailing).is_none());

    let mut wrong_tag = good.clone();
    wrong_tag[0] = '*';
    assert!(decode_planet(&wrong_tag).is_none());
}
