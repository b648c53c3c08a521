use goat_dashboard::domain::{Breed, DiseaseRef, Gender, VaccineRef};
use goat_dashboard::errors::AppError;

const CANONICAL_TAGS: [&str; 10] = [
    "Beetal",
    "Jamunapari",
    "Barbari",
    "Sirohi",
    "Osmanabadi",
    "BlackBengal",
    "Kutchi",
    "Kaghani",
    "Chegu",
    "Jakhrana",
];

#[test]
fn breed_canonical_tags_round_trip() {
    for tag in CANONICAL_TAGS {
        let parsed = Breed::from_str(tag);
        assert!(!matches!(parsed, Breed::Other(_)), "{tag} must parse to a named variant");
        assert_eq!(Breed::to_str(&parsed), tag);
    }
}

#[test]
fn breed_parse_is_exact_match() {
    assert_eq!(Breed::from_str("Beetal"), Breed::Beetal);
    assert_eq!(Breed::from_str("Jamunapari"), Breed::Jamunapari);
    assert_eq!(Breed::from_str("Barbari"), Breed::Barbari);
    assert_eq!(Breed::from_str("Sirohi"), Breed::Sirohi);
    assert_eq!(Breed::from_str("Osmanabadi"), Breed::Osmanabadi);
    assert_eq!(Breed::from_str("BlackBengal"), Breed::BlackBengal);
    assert_eq!(Breed::from_str("Kutchi"), Breed::Kutchi);
    assert_eq!(Breed::from_str("Kaghani"), Breed::Kaghani);
    assert_eq!(Breed::from_str("Chegu"), Breed::Chegu);
    assert_eq!(Breed::from_str("Jakhrana"), Breed::Jakhrana);
}

#[test]
fn breed_unknown_text_becomes_other_verbatim() {
    for text in ["Saanen", "beetal", "BEETAL", "", " Beetal", "Beetal ", "Black Bengal"] {
        let parsed = Breed::from_str(text);
        assert_eq!(parsed, Breed::Other(text.to_string()));
        assert_eq!(Breed::to_str(&parsed), text);
    }
}

#[test]
fn breed_other_serializes_verbatim() {
    let other = Breed::Other("Anglo-Nubian".to_string());
    assert_eq!(Breed::to_str(&other), "Anglo-Nubian");
}

#[test]
fn gender_tags_round_trip() {
    for tag in ["Male", "Female"] {
        let parsed = Gender::from_str(tag).expect("canonical gender tag must parse");
        assert_eq!(Gender::to_str(&parsed), tag);
    }
    assert_eq!(Gender::from_str("Male"), Ok(Gender::Male));
    assert_eq!(Gender::from_str("Female"), Ok(Gender::Female));
}

#[test]
fn gender_rejects_unknown_text() {
    for text in ["male", "female", "MALE", "", "Unknown", " Male"] {
        let parsed = Gender::from_str(text);
        assert_eq!(parsed, Err(text.to_string()));
    }
}

#[test]
fn reference_records_compare_structurally() {
    let a = VaccineRef { id: Some(3), name: "Rabies".to_string() };
    let b = VaccineRef { id: Some(3), name: "Rabies".to_string() };
    let c = VaccineRef { id: None, name: "Rabies".to_string() };
    assert_eq!(a, b);
    assert_ne!(a, c);
    let d = DiseaseRef { id: Some(7), name: "Mastitis".to_string() };
    let e = DiseaseRef { id: Some(7), name: "FootRot".to_string() };
    assert_eq!(d.clone(), d);
    assert_ne!(d, e);
}

#[test]
fn app_error_messages_name_their_kind() {
    assert_eq!(
        AppError::network("connection reset".to_string()).message(),
        "Network or API error: connection reset"
    );
    assert_eq!(AppError::invalid_input("bad form".to_string()).message(), "Invalid input: bad form");
    assert_eq!(AppError::not_found("Daisy".to_string()).message(), "Goat not found: Daisy");
    assert_eq!(AppError::unexpected("oops".to_string()).message(), "Unexpected error: oops");
}
