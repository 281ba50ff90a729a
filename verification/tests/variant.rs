use colored_noise::variant::NoiseValue;

const ALL: [(NoiseValue, &str); 8] = [
    (NoiseValue::White, "white"),
    (NoiseValue::Gaussian, "gaussian"),
    (NoiseValue::Triangular, "triangular"),
    (NoiseValue::Pink, "pink"),
    (NoiseValue::Blue, "blue"),
    (NoiseValue::Violet, "violet"),
    (NoiseValue::Brownian, "brownian"),
    (NoiseValue::Velvet, "velvet"),
];

#[test]
fn parses_every_canonical_name() {
    for (variant, name) in ALL {
        assert_eq!(NoiseValue::parse(name), Some(variant), "{name}");
    }
}

#[test]
fn parses_case_insensitively() {
    assert_eq!(NoiseValue::parse("PINK"), Some(NoiseValue::Pink));
    assert_eq!(NoiseValue::parse("pink"), Some(NoiseValue::Pink));
    assert_eq!(NoiseValue::parse("Pink"), Some(NoiseValue::Pink));
    assert_eq!(NoiseValue::parse("pInK"), Some(NoiseValue::Pink));
    assert_eq!(NoiseValue::parse("VELVET"), Some(NoiseValue::Velvet));
    assert_eq!(NoiseValue::parse("BrOwNiAn"), Some(NoiseValue::Brownian));
}

#[test]
fn every_name_parses_back_to_its_variant() {
    for (variant, _) in ALL {
        assert_eq!(NoiseValue::parse(variant.name()), Some(variant));
    }
}

#[test]
fn names_are_canonical() {
    for (variant, name) in ALL {
        assert_eq!(variant.name(), name);
    }
}

#[test]
fn default_is_brownian() {
    assert_eq!(NoiseValue::default(), NoiseValue::Brownian);
}

#[test]
fn rejects_unknown_names() {
    assert_eq!(NoiseValue::parse("red"), None);
    assert_eq!(NoiseValue::parse(""), None);
    assert_eq!(NoiseValue::parse("whitee"), None);
    assert_eq!(NoiseValue::parse("whit"), None);
    assert_eq!(NoiseValue::parse("pink "), None);
    assert_eq!(NoiseValue::parse(" pink"), None);
}

#[test]
fn rejects_non_ascii_lookalikes() {
    assert_eq!(NoiseValue::parse("wħite"), None);
    assert_eq!(NoiseValue::parse("pìnk"), None);
}
