use galaxygen::{generate_nearby_stars, GalacticPosition, Galaxy, GalaxyType, Sampler, Star, StarTypes};

fn star_triples(stars: &[Star]) -> Vec<(String, StarTypes, u64)> {
    stars.iter().map(|s| (s.name.clone(), s.star_type, s.seed)).collect()
}

#[test]
fn scenario_seed_42_origin() {
    let galaxy = Galaxy::new("Milky Way".to_string(), GalaxyType::Spiral, 42);
    let position = GalacticPosition::new((0.0f64).to_bits(), (0.0f64).to_bits());
    let stars = galaxy.get_nearby_stars(position);
    assert_eq!(stars.len(), 10);
    for s in &stars {
        assert_eq!(s.name, "");
        assert_eq!(s.star_type, StarTypes::O);
    }
    let position_again = GalacticPosition::new((0.0f64).to_bits(), (0.0f64).to_bits());
    let again = galaxy.get_nearby_stars(position_again);
    assert_eq!(star_triples(&stars), star_triples(&again));
}

#[test]
fn determinism_over_seeds_and_positions() {
    for seed in [0u64, 1, 42, u64::MAX] {
        let g1 = Galaxy::new("one".to_string(), GalaxyType::Spiral, seed);
        let g2 = Galaxy::new("two".to_string(), GalaxyType::Spiral, seed);
        let p1 = GalacticPosition::new((12.5f64).to_bits(), (-3.25f64).to_bits());
        let p2 = GalacticPosition::new((12.5f64).to_bits(), (-3.25f64).to_bits());
        let r1 = g1.get_nearby_stars(p1);
        let r2 = g2.get_nearby_stars(p2);
        assert_eq!(star_triples(&r1), star_triples(&r2));
    }
}

#[test]
fn fixed_cardinality_everywhere() {
    let positions = [
        (0.0f64, 0.0f64),
        (f64::MAX, f64::MIN),
        (f64::INFINITY, f64::NEG_INFINITY),
        (-0.0f64, 1.0e-308f64),
    ];
    for seed in [0u64, 7, 123456789, u64::MAX] {
        for (x, y) in positions {
            let g = Galaxy::new("g".to_string(), GalaxyType::Spiral, seed);
            let stars = g.get_nearby_stars(GalacticPosition::new(x.to_bits(), y.to_bits()));
            assert_eq!(stars.len(), 10);
        }
    }
}

#[test]
fn isolation_between_interleaved_calls() {
    let g1 = Galaxy::new("a".to_string(), GalaxyType::Spiral, 5);
    let g2 = Galaxy::new("b".to_string(), GalaxyType::Spiral, 6);
    let p = |x: f64, y: f64| GalacticPosition::new(x.to_bits(), y.to_bits());
    let before = g1.get_nearby_stars(p(1.0, 2.0));
    let other = g2.get_nearby_stars(p(1.0, 2.0));
    let after = g1.get_nearby_stars(p(1.0, 2.0));
    assert_eq!(star_triples(&before), star_triples(&after));
    assert_ne!(star_triples(&before), star_triples(&other));
}

#[test]
fn seed_uniqueness_statistical() {
    let mut collisions = 0usize;
    for seed in 0u64..10_000 {
        let g = Galaxy::new("g".to_string(), GalaxyType::Spiral, seed);
        let stars = g.get_nearby_stars(GalacticPosition::new(0, 0));
        let mut seeds: Vec<u64> = stars.iter().map(|s| s.seed).collect();
        seeds.sort_unstable();
        for w in seeds.windows(2) {
            if w[0] == w[1] {
                collisions += 1;
            }
        }
    }
    assert_eq!(collisions, 0);
}

#[test]
fn boundary_function_matches_method() {
    let galaxy = Galaxy::new("Milky Way".to_string(), GalaxyType::Spiral, 42);
    let via_method = galaxy.get_nearby_stars(GalacticPosition::new(0, 0));
    let via_boundary =
        generate_nearby_stars(42, "Milky Way".to_string(), GalaxyType::Spiral, GalacticPosition::new(0, 0));
    assert_eq!(star_triples(&via_method), star_triples(&via_boundary));
}

#[test]
fn sampler_streams_are_reproducible() {
    let mut a = Sampler::from_seed(99);
    let mut b = Sampler::from_seed(99);
    let mut c = Sampler::from_seed(100);
    let draws_a: Vec<u64> = (0..20).map(|_| a.next_u64()).collect();
    let draws_b: Vec<u64> = (0..20).map(|_| b.next_u64()).collect();
    let draws_c: Vec<u64> = (0..20).map(|_| c.next_u64()).collect();
    assert_eq!(draws_a, draws_b);
    assert_ne!(draws_a, draws_c);
}
