//! The domain model: breed and gender codecs, reference records, and the
//! aggregate goat record.

use vstd::prelude::*;
use crate::text::str_eq;

verus! {

/// A goat breed: one of ten named breed tags, or `Other` carrying an
/// arbitrary free-text breed name. The open `Other` variant lets callers
/// accept breed names outside the named set without a schema change.
#[derive(Debug, PartialEq)]
pub enum Breed {
    Beetal,
    Jamunapari,
    Barbari,
    Sirohi,
    Osmanabadi,
    BlackBengal,
    Kutchi,
    Kaghani,
    Chegu,
    Jakhrana,
    Other(String),
}

impl Clone for Breed {
    fn clone(&self) -> (r: Self)
        ensures
            r == *self,
    {
        match self {
            Breed::Beetal => Breed::Beetal,
            Breed::Jamunapari => Breed::Jamunapari,
            Breed::Barbari => Breed::Barbari,
            Breed::Sirohi => Breed::Sirohi,
            Breed::Osmanabadi => Breed::Osmanabadi,
            Breed::BlackBengal => Breed::BlackBengal,
            Breed::Kutchi => Breed::Kutchi,
            Breed::Kaghani => Breed::Kaghani,
            Breed::Chegu => Breed::Chegu,
            Breed::Jakhrana => Breed::Jakhrana,
            Breed::Other(name) => Breed::Other(name.clone()),
        }
    }
}

impl Breed {
    /// The canonical wire spelling of this breed; `Other` serializes its
    /// text verbatim.
    pub open spec fn spec_tag(&self) -> Seq<char> {
        match self {
            Breed::Beetal => "Beetal"@,
            Breed::Jamunapari => "Jamunapari"@,
            Breed::Barbari => "Barbari"@,
            Breed::Sirohi => "Sirohi"@,
            Breed::Osmanabadi => "Osmanabadi"@,
            Breed::BlackBengal => "BlackBengal"@,
            Breed::Kutchi => "Kutchi"@,
            Breed::Kaghani => "Kaghani"@,
            Breed::Chegu => "Chegu"@,
            Breed::Jakhrana => "Jakhrana"@,
            Breed::Other(name) => name@,
        }
    }

    /// Whether the text spells one of the ten canonical breed tags.
    pub open spec fn spec_is_canonical_tag(t: Seq<char>) -> bool {
        ||| t == "Beetal"@
        ||| t == "Jamunapari"@
        ||| t == "Barbari"@
        ||| t == "Sirohi"@
        ||| t == "Osmanabadi"@
        ||| t == "BlackBengal"@
        ||| t == "Kutchi"@
        ||| t == "Kaghani"@
        ||| t == "Chegu"@
        ||| t == "Jakhrana"@
    }

    /// What parsing text as a breed returns: a breed whose tag is the input
    /// itself, falling into `Other` for exactly the unrecognized texts.
    pub open spec fn spec_parses_to(t: Seq<char>, b: Breed) -> bool {
        &&& b.spec_tag() == t
        &&& ((b is Other) <==> !Breed::spec_is_canonical_tag(t))
    }

    /// Converts a database string to `Breed`, treating unknown values as
    /// `Other`. Never fails.
    pub fn from_str(s: &str) -> (r: Breed)
        ensures
            Breed::spec_parses_to(s@, r),
    {
        if str_eq(s, "Beetal") {
            Breed::Beetal
        } else if str_eq(s, "Jamunapari") {
            Breed::Jamunapari
        } else if str_eq(s, "Barbari") {
            Breed::Barbari
        } else if str_eq(s, "Sirohi") {
            Breed::Sirohi
        } else if str_eq(s, "Osmanabadi") {
            Breed::Osmanabadi
        } else if str_eq(s, "BlackBengal") {
            Breed::BlackBengal
        } else if str_eq(s, "Kutchi") {
            Breed::Kutchi
        } else if str_eq(s, "Kaghani") {
            Breed::Kaghani
        } else if str_eq(s, "Chegu") {
            Breed::Chegu
        } else if str_eq(s, "Jakhrana") {
            Breed::Jakhrana
        } else {
            Breed::Other(s.to_owned())
        }
    }

    /// Converts a `Breed` to its database string.
    pub fn to_str(breed: &Breed) -> (r: &str)
        ensures
            r@ == breed.spec_tag(),
    {
        match breed {
            Breed::Beetal => "Beetal",
            Breed::Jamunapari => "Jamunapari",
            Breed::Barbari => "Barbari",
            Breed::Sirohi => "Sirohi",
            Breed::Osmanabadi => "Osmanabadi",
            Breed::BlackBengal => "BlackBengal",
            Breed::Kutchi => "Kutchi",
            Breed::Kaghani => "Kaghani",
            Breed::Chegu => "Chegu",
            Breed::Jakhrana => "Jakhrana",
            Breed::Other(name) => name.as_str(),
        }
    }
}

/// Whatever text a breed was parsed from, serializing the parse result
/// gives that text back: the codec round-trips for canonical tags and for
/// free-text breed names alike.
pub proof fn lemma_breed_round_trip(t: Seq<char>, b: Breed)
    requires
        Breed::spec_parses_to(t, b),
    ensures
        b.spec_tag() == t,
{
}

/// Text matching no canonical tag parses to `Other` carrying the text
/// verbatim, and `Other` serializes its text verbatim.
pub proof fn lemma_unknown_breed_is_other(t: Seq<char>, b: Breed)
    requires
        Breed::spec_parses_to(t, b),
        !Breed::spec_is_canonical_tag(t),
    ensures
        b matches Breed::Other(name) && name@ == t,
{
}

/// Parsing a canonical tag is unambiguous: any two breeds that a canonical
/// text parses to are the same named variant.
pub proof fn lemma_canonical_breed_parse_unique(t: Seq<char>, b1: Breed, b2: Breed)
    requires
        Breed::spec_parses_to(t, b1),
        Breed::spec_parses_to(t, b2),
        Breed::spec_is_canonical_tag(t),
    ensures
        b1 == b2,
{
    reveal_strlit("Beetal");
    reveal_strlit("Jamunapari");
    reveal_strlit("Barbari");
    reveal_strlit("Sirohi");
    reveal_strlit("Osmanabadi");
    reveal_strlit("BlackBengal");
    reveal_strlit("Kutchi");
    reveal_strlit("Kaghani");
    reveal_strlit("Chegu");
    reveal_strlit("Jakhrana");
    assert("Beetal"@.len() == 6);
    assert("Jamunapari"@.len() == 10);
    assert("Barbari"@.len() == 7);
    assert("Sirohi"@.len() == 6);
    assert("Osmanabadi"@.len() == 10);
    assert("BlackBengal"@.len() == 11);
    assert("Kutchi"@.len() == 6);
    assert("Kaghani"@.len() == 7);
    assert("Chegu"@.len() == 5);
    assert("Jakhrana"@.len() == 8);
    assert("Beetal"@[0] == 'B' && "Sirohi"@[0] == 'S' && "Kutchi"@[0] == 'K');
    assert("Jamunapari"@[0] == 'J' && "Osmanabadi"@[0] == 'O');
    assert("Barbari"@[0] == 'B' && "Kaghani"@[0] == 'K');
}

/// A goat's gender: a closed enumeration.
#[derive(Debug, PartialEq, Clone, Copy)]
pub enum Gender {
    Male,
    Female,
}

impl Gender {
    /// The canonical wire spelling of this gender.
    pub open spec fn spec_tag(&self) -> Seq<char> {
        match self {
            Gender::Male => "Male"@,
            Gender::Female => "Female"@,
        }
    }

    /// Whether the text spells one of the two gender tags.
    pub open spec fn spec_is_tag(t: Seq<char>) -> bool {
        t == "Male"@ || t == "Female"@
    }

    /// What parsing text as a gender returns: a gender whose tag is the
    /// input for exactly the two recognized texts, and an error carrying
    /// the input verbatim otherwise.
    pub open spec fn spec_parses_to(t: Seq<char>, r: Result<Gender, String>) -> bool {
        &&& ((r is Ok) <==> Gender::spec_is_tag(t))
        &&& (r matches Ok(g) ==> g.spec_tag() == t)
        &&& (r matches Err(e) ==> e@ == t)
    }

    /// Converts a database string to `Gender`; unrecognized text is an
    /// explicit error carrying the text itself, never a default.
    pub fn from_str(s: &str) -> (r: Result<Gender, String>)
        ensures
            Gender::spec_parses_to(s@, r),
            s@ == "Male"@ ==> r == Ok::<Gender, String>(Gender::Male),
            s@ == "Female"@ ==> r == Ok::<Gender, String>(Gender::Female),
    {
        proof {
            reveal_strlit("Male");
            reveal_strlit("Female");
            assert("Male"@.len() == 4);
            assert("Female"@.len() == 6);
        }
        if str_eq(s, "Male") {
            Ok(Gender::Male)
        } else if str_eq(s, "Female") {
            Ok(Gender::Female)
        } else {
            Err(s.to_owned())
        }
    }

    /// Converts a `Gender` to its database string.
    pub fn to_str(gender: &Gender) -> (r: &str)
        ensures
            r@ == gender.spec_tag(),
    {
        match gender {
            Gender::Male => "Male",
            Gender::Female => "Female",
        }
    }
}

/// Parsing succeeds exactly on the two gender tags and serializing the
/// parse result gives the tag back; every other text fails, the error
/// carrying the text verbatim.
pub proof fn lemma_gender_round_trip(t: Seq<char>, r: Result<Gender, String>)
    requires
        Gender::spec_parses_to(t, r),
    ensures
        Gender::spec_is_tag(t) ==> (r matches Ok(g) && g.spec_tag() == t),
        !Gender::spec_is_tag(t) ==> (r matches Err(e) && e@ == t),
{
}

/// A vaccine, by common name or free text.
#[derive(Debug)]
pub enum Vaccine {
    Rabies,
    Cdt,
    Clostridium,
    FootAndMouth,
    Other(String),
}

impl Clone for Vaccine {
    fn clone(&self) -> (r: Self)
        ensures
            r == *self,
    {
        match self {
            Vaccine::Rabies => Vaccine::Rabies,
            Vaccine::Cdt => Vaccine::Cdt,
            Vaccine::Clostridium => Vaccine::Clostridium,
            Vaccine::FootAndMouth => Vaccine::FootAndMouth,
            Vaccine::Other(name) => Vaccine::Other(name.clone()),
        }
    }
}

/// A disease, by common name or free text.
#[derive(Debug)]
pub enum Disease {
    FootRot,
    Mastitis,
    Parasites,
    Pneumonia,
    Other(String),
}

impl Clone for Disease {
    fn clone(&self) -> (r: Self)
        ensures
            r == *self,
    {
        match self {
            Disease::FootRot => Disease::FootRot,
            Disease::Mastitis => Disease::Mastitis,
            Disease::Parasites => Disease::Parasites,
            Disease::Pneumonia => Disease::Pneumonia,
            Disease::Other(name) => Disease::Other(name.clone()),
        }
    }
}

/// A reference to a vaccine record: an optional numeric identifier (absent
/// when not yet persisted) plus a display name. Equality is structural.
#[derive(Debug, PartialEq)]
pub struct VaccineRef {
    pub id: Option<i64>,
    pub name: String,
}

impl Clone for VaccineRef {
    fn clone(&self) -> (r: Self)
        ensures
            r == *self,
    {
        VaccineRef { id: self.id, name: self.name.clone() }
    }
}

/// A reference to a disease record: an optional numeric identifier plus a
/// display name. Equality is structural.
#[derive(Debug, PartialEq)]
pub struct DiseaseRef {
    pub id: Option<i64>,
    pub name: String,
}

impl Clone for DiseaseRef {
    fn clone(&self) -> (r: Self)
        ensures
            r == *self,
    {
        DiseaseRef { id: self.id, name: self.name.clone() }
    }
}

/// The aggregate goat record. The store matches records by `name`. The
/// monetary and weight figures (`cost`, `weight`, `current_price`) are
/// carried as IEEE 754 double-precision bit patterns: the library never
/// computes with them, and the transport layer converts them to and from
/// floating point at the boundary.
#[derive(Debug, PartialEq)]
pub struct GoatParams {
    pub name: String,
    pub breed: Breed,
    pub gender: Gender,
    pub offspring: i32,
    pub cost: u64,
    pub weight: u64,
    pub current_price: u64,
    pub diet: String,
    pub last_bred: Option<String>,
    pub health_status: String,
    pub vaccinations: Vec<VaccineRef>,
    pub diseases: Vec<DiseaseRef>,
}

impl Clone for GoatParams {
    fn clone(&self) -> (r: Self)
        ensures
            r.name == self.name,
            r.breed == self.breed,
            r.gender == self.gender,
            r.offspring == self.offspring,
            r.cost == self.cost,
            r.weight == self.weight,
            r.current_price == self.current_price,
            r.diet == self.diet,
            r.last_bred == self.last_bred,
            r.health_status == self.health_status,
            r.vaccinations@ == self.vaccinations@,
            r.diseases@ == self.diseases@,
    {
        let vaccinations = self.vaccinations.clone();
        let diseases = self.diseases.clone();
        proof {
            assert(vaccinations@ =~= self.vaccinations@);
            assert(diseases@ =~= self.diseases@);
        }
        GoatParams {
            name: self.name.clone(),
            breed: self.breed.clone(),
            gender: self.gender,
            offspring: self.offspring,
            cost: self.cost,
            weight: self.weight,
            current_price: self.current_price,
            diet: self.diet.clone(),
            last_bred: match &self.last_bred {
                Some(d) => Some(d.clone()),
                None => None,
            },
            health_status: self.health_status.clone(),
            vaccinations,
            diseases,
        }
    }
}

} // verus!
