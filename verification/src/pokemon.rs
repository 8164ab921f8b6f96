//! The data of the benchmark's Pokédex: the egg distances and the types of
//! a Pokémon, each with the name it has in the JSON data, and the options
//! and plan of a benchmark run.

use crate::text::str_eq;
use vstd::prelude::*;
use vstd::string::*;

verus! {

/// A step in the evolution of a Pokémon.
#[derive(Debug, Clone)]
pub struct Evolution {
    pub num: String,
    pub name: String,
}

/// How a Pokémon hatches.
#[derive(Debug, Clone, Copy, PartialEq, Eq, Structural)]
pub enum Egg {
    NotInEggs,
    OmanyteCandy,
    The10Km,
    The2Km,
    The5Km,
}

/// The name of an egg in the JSON data.
pub open spec fn egg_name(e: Egg) -> Seq<char> {
    match e {
        Egg::NotInEggs => "Not in Eggs"@,
        Egg::OmanyteCandy => "Omanyte Candy"@,
        Egg::The10Km => "10 km"@,
        Egg::The2Km => "2 km"@,
        Egg::The5Km => "5 km"@,
    }
}

/// The egg whose name is `s`, if there is one.
pub open spec fn egg_from_name(s: Seq<char>) -> Option<Egg> {
    if s == "Not in Eggs"@ {
        Some(Egg::NotInEggs)
    } else if s == "Omanyte Candy"@ {
        Some(Egg::OmanyteCandy)
    } else if s == "10 km"@ {
        Some(Egg::The10Km)
    } else if s == "2 km"@ {
        Some(Egg::The2Km)
    } else if s == "5 km"@ {
        Some(Egg::The5Km)
    } else {
        None
    }
}

/// Reading the name of an egg gives the egg back: different eggs have
/// different names.
pub proof fn lemma_egg_name_round_trip(e: Egg)
    ensures
        egg_from_name(egg_name(e)) == Some(e),
{
    reveal_strlit("Not in Eggs");
    reveal_strlit("Omanyte Candy");
    reveal_strlit("10 km");
    reveal_strlit("2 km");
    reveal_strlit("5 km");
    assert("Not in Eggs"@.len() == 11 && "Omanyte Candy"@.len() == 13 && "10 km"@.len() == 5);
    assert("2 km"@.len() == 4 && "5 km"@.len() == 4 && "2 km"@[0] != "5 km"@[0]);
}

impl Egg {
    /// The name of the egg in the JSON data.
    pub fn name(&self) -> (s: &'static str)
        ensures
            s@ == egg_name(*self),
    {
        match *self {
            Egg::NotInEggs => "Not in Eggs",
            Egg::OmanyteCandy => "Omanyte Candy",
            Egg::The10Km => "10 km",
            Egg::The2Km => "2 km",
            Egg::The5Km => "5 km",
        }
    }

    /// The egg with the name `s`, if there is one.
    pub fn from_name(s: &str) -> (r: Option<Egg>)
        ensures
            r == egg_from_name(s@),
    {
        if str_eq(s, "Not in Eggs") {
            Some(Egg::NotInEggs)
        } else if str_eq(s, "Omanyte Candy") {
            Some(Egg::OmanyteCandy)
        } else if str_eq(s, "10 km") {
            Some(Egg::The10Km)
        } else if str_eq(s, "2 km") {
            Some(Egg::The2Km)
        } else if str_eq(s, "5 km") {
            Some(Egg::The5Km)
        } else {
            None
        }
    }
}

/// The type of a Pokémon; its name in the JSON data is the name of the
/// variant (`Ghost` for `GhostType`).
#[derive(Debug, Clone, Copy, PartialEq, Eq, Structural)]
pub enum Type {
    Bug,
    Dark,
    Dragon,
    Electric,
    Fairy,
    Fighting,
    Fire,
    Flying,
    GhostType,
    Grass,
    Ground,
    Ice,
    Normal,
    Poison,
    Psychic,
    Rock,
    Steel,
    Water,
}

/// The name of a type in the JSON data.
pub open spec fn pokemon_type_name(t: Type) -> Seq<char> {
    match t {
        Type::Bug => "Bug"@,
        Type::Dark => "Dark"@,
        Type::Dragon => "Dragon"@,
        Type::Electric => "Electric"@,
        Type::Fairy => "Fairy"@,
        Type::Fighting => "Fighting"@,
        Type::Fire => "Fire"@,
        Type::Flying => "Flying"@,
        Type::GhostType => "Ghost"@,
        Type::Grass => "Grass"@,
        Type::Ground => "Ground"@,
        Type::Ice => "Ice"@,
        Type::Normal => "Normal"@,
        Type::Poison => "Poison"@,
        Type::Psychic => "Psychic"@,
        Type::Rock => "Rock"@,
        Type::Steel => "Steel"@,
        Type::Water => "Water"@,
    }
}

/// The type whose name is `s`, if there is one.
pub open spec fn pokemon_type_from_name(s: Seq<char>) -> Option<Type> {
    if s == "Bug"@ {
        Some(Type::Bug)
    } else if s == "Dark"@ {
        Some(Type::Dark)
    } else if s == "Dragon"@ {
        Some(Type::Dragon)
    } else if s == "Electric"@ {
        Some(Type::Electric)
    } else if s == "Fairy"@ {
        Some(Type::Fairy)
    } else if s == "Fighting"@ {
        Some(Type::Fighting)
    } else if s == "Fire"@ {
        Some(Type::Fire)
    } else if s == "Flying"@ {
        Some(Type::Flying)
    } else if s == "Ghost"@ {
        Some(Type::GhostType)
    } else if s == "Grass"@ {
        Some(Type::Grass)
    } else if s == "Ground"@ {
        Some(Type::Ground)
    } else if s == "Ice"@ {
        Some(Type::Ice)
    } else if s == "Normal"@ {
        Some(Type::Normal)
    } else if s == "Poison"@ {
        Some(Type::Poison)
    } else if s == "Psychic"@ {
        Some(Type::Psychic)
    } else if s == "Rock"@ {
        Some(Type::Rock)
    } else if s == "Steel"@ {
        Some(Type::Steel)
    } else if s == "Water"@ {
        Some(Type::Water)
    } else {
        None
    }
}

/// Reading the name of a type gives the type back: different types have
/// different names.
pub proof fn lemma_type_name_round_trip(t: Type)
    ensures
        pokemon_type_from_name(pokemon_type_name(t)) == Some(t),
{
    reveal_strlit("Bug");
    reveal_strlit("Dark");
    reveal_strlit("Dragon");
    reveal_strlit("Electric");
    reveal_strlit("Fairy");
    reveal_strlit("Fighting");
    reveal_strlit("Fire");
    reveal_strlit("Flying");
    reveal_strlit("Ghost");
    reveal_strlit("Grass");
    reveal_strlit("Ground");
    reveal_strlit("Ice");
    reveal_strlit("Normal");
    reveal_strlit("Poison");
    reveal_strlit("Psychic");
    reveal_strlit("Rock");
    reveal_strlit("Steel");
    reveal_strlit("Water");
    assert("Bug"@.len() == 3 && "Bug"@[0] == 'B' && "Bug"@[1] == 'u');
    assert("Dark"@.len() == 4 && "Dark"@[0] == 'D' && "Dark"@[1] == 'a');
    assert("Dragon"@.len() == 6 && "Dragon"@[0] == 'D' && "Dragon"@[1] == 'r');
    assert("Electric"@.len() == 8 && "Electric"@[0] == 'E' && "Electric"@[1] == 'l');
    assert("Fairy"@.len() == 5 && "Fairy"@[0] == 'F' && "Fairy"@[1] == 'a');
    assert("Fighting"@.len() == 8 && "Fighting"@[0] == 'F' && "Fighting"@[1] == 'i');
    assert("Fire"@.len() == 4 && "Fire"@[0] == 'F' && "Fire"@[1] == 'i');
    assert("Flying"@.len() == 6 && "Flying"@[0] == 'F' && "Flying"@[1] == 'l');
    assert("Ghost"@.len() == 5 && "Ghost"@[0] == 'G' && "Ghost"@[1] == 'h');
    assert("Grass"@.len() == 5 && "Grass"@[0] == 'G' && "Grass"@[1] == 'r');
    assert("Ground"@.len() == 6 && "Ground"@[0] == 'G' && "Ground"@[1] == 'r');
    assert("Ice"@.len() == 3 && "Ice"@[0] == 'I' && "Ice"@[1] == 'c');
    assert("Normal"@.len() == 6 && "Normal"@[0] == 'N' && "Normal"@[1] == 'o');
    assert("Poison"@.len() == 6 && "Poison"@[0] == 'P' && "Poison"@[1] == 'o');
    assert("Psychic"@.len() == 7 && "Psychic"@[0] == 'P' && "Psychic"@[1] == 's');
    assert("Rock"@.len() == 4 && "Rock"@[0] == 'R' && "Rock"@[1] == 'o');
    assert("Steel"@.len() == 5 && "Steel"@[0] == 'S' && "Steel"@[1] == 't');
    assert("Water"@.len() == 5 && "Water"@[0] == 'W' && "Water"@[1] == 'a');
}

impl Type {
    /// The name of the type in the JSON data.
    pub fn name(&self) -> (s: &'static str)
        ensures
            s@ == pokemon_type_name(*self),
    {
        match *self {
            Type::Bug => "Bug",
            Type::Dark => "Dark",
            Type::Dragon => "Dragon",
            Type::Electric => "Electric",
            Type::Fairy => "Fairy",
            Type::Fighting => "Fighting",
            Type::Fire => "Fire",
            Type::Flying => "Flying",
            Type::GhostType => "Ghost",
            Type::Grass => "Grass",
            Type::Ground => "Ground",
            Type::Ice => "Ice",
            Type::Normal => "Normal",
            Type::Poison => "Poison",
            Type::Psychic => "Psychic",
            Type::Rock => "Rock",
            Type::Steel => "Steel",
            Type::Water => "Water",
        }
    }

    /// The type with the name `s`, if there is one.
    pub fn from_name(s: &str) -> (r: Option<Type>)
        ensures
            r == pokemon_type_from_name(s@),
    {
        if str_eq(s, "Bug") {
            Some(Type::Bug)
        } else if str_eq(s, "Dark") {
            Some(Type::Dark)
        } else if str_eq(s, "Dragon") {
            Some(Type::Dragon)
        } else if str_eq(s, "Electric") {
            Some(Type::Electric)
        } else if str_eq(s, "Fairy") {
            Some(Type::Fairy)
        } else if str_eq(s, "Fighting") {
            Some(Type::Fighting)
        } else if str_eq(s, "Fire") {
            Some(Type::Fire)
        } else if str_eq(s, "Flying") {
            Some(Type::Flying)
        } else if str_eq(s, "Ghost") {
            Some(Type::GhostType)
        } else if str_eq(s, "Grass") {
            Some(Type::Grass)
        } else if str_eq(s, "Ground") {
            Some(Type::Ground)
        } else if str_eq(s, "Ice") {
            Some(Type::Ice)
        } else if str_eq(s, "Normal") {
            Some(Type::Normal)
        } else if str_eq(s, "Poison") {
            Some(Type::Poison)
        } else if str_eq(s, "Psychic") {
            Some(Type::Psychic)
        } else if str_eq(s, "Rock") {
            Some(Type::Rock)
        } else if str_eq(s, "Steel") {
            Some(Type::Steel)
        } else if str_eq(s, "Water") {
            Some(Type::Water)
        } else {
            None
        }
    }
}

/// The JSON name of each type is the name of its variant (`Ghost` for
/// `GhostType`), and reading a name gives back the one type that bears it.
pub proof fn lemma_type_names(s: Seq<char>)
    ensures
        pokemon_type_name(Type::Bug) == "Bug"@,
        pokemon_type_name(Type::Dark) == "Dark"@,
        pokemon_type_name(Type::Dragon) == "Dragon"@,
        pokemon_type_name(Type::Electric) == "Electric"@,
        pokemon_type_name(Type::Fairy) == "Fairy"@,
        pokemon_type_name(Type::Fighting) == "Fighting"@,
        pokemon_type_name(Type::Fire) == "Fire"@,
        pokemon_type_name(Type::Flying) == "Flying"@,
        pokemon_type_name(Type::GhostType) == "Ghost"@,
        pokemon_type_name(Type::Grass) == "Grass"@,
        pokemon_type_name(Type::Ground) == "Ground"@,
        pokemon_type_name(Type::Ice) == "Ice"@,
        pokemon_type_name(Type::Normal) == "Normal"@,
        pokemon_type_name(Type::Poison) == "Poison"@,
        pokemon_type_name(Type::Psychic) == "Psychic"@,
        pokemon_type_name(Type::Rock) == "Rock"@,
        pokemon_type_name(Type::Steel) == "Steel"@,
        pokemon_type_name(Type::Water) == "Water"@,
        pokemon_type_from_name(s) matches Some(t) ==> pokemon_type_name(t) == s,
{
}

/// The JSON name of each egg, as the data writes it, and reading a name
/// gives back the one egg that bears it.
pub proof fn lemma_egg_names(s: Seq<char>)
    ensures
        egg_name(Egg::NotInEggs) == "Not in Eggs"@,
        egg_name(Egg::OmanyteCandy) == "Omanyte Candy"@,
        egg_name(Egg::The10Km) == "10 km"@,
        egg_name(Egg::The2Km) == "2 km"@,
        egg_name(Egg::The5Km) == "5 km"@,
        egg_from_name(s) matches Some(e) ==> egg_name(e) == s,
{
}

/// The options of a benchmark run of serialization and deserialization.
#[derive(Debug, Clone)]
pub struct BenchOptions {
    /// Where the profile of the run is written, when one is taken.
    pub report_file: Option<String>,
    /// Whether Neon's own conversion is measured.
    pub neon: bool,
    /// Whether the conversion through `serde_json` is measured.
    pub json: bool,
}

/// A conversion a benchmark run measures.
#[derive(Debug, Clone, Copy, PartialEq, Eq, Structural)]
pub enum BenchTarget {
    Neon,
    SerdeJson,
}

impl BenchTarget {
    /// The name of the benchmark function.
    pub fn name(&self) -> (s: &'static str)
        ensures
            s@ == (match *self {
                BenchTarget::Neon => "neon"@,
                BenchTarget::SerdeJson => "serde_json"@,
            }),
    {
        match *self {
            BenchTarget::Neon => "neon",
            BenchTarget::SerdeJson => "serde_json",
        }
    }
}

impl BenchOptions {
    /// The conversions measured, in the order they run: Neon's first.
    pub fn targets(&self) -> (r: Vec<BenchTarget>)
        ensures
            r@ == (if self.neon {
                seq![BenchTarget::Neon]
            } else {
                Seq::empty()
            }) + (if self.json {
                seq![BenchTarget::SerdeJson]
            } else {
                Seq::empty()
            }),
    {
        let mut r: Vec<BenchTarget> = Vec::new();
        if self.neon {
            r.push(BenchTarget::Neon);
        }
        if self.json {
            r.push(BenchTarget::SerdeJson);
        }
        proof {
            let a: Seq<BenchTarget> = if self.neon {
                seq![BenchTarget::Neon]
            } else {
                Seq::empty()
            };
            let b: Seq<BenchTarget> = if self.json {
                seq![BenchTarget::SerdeJson]
            } else {
                Seq::empty()
            };
            assert(r@ =~= a + b);
        }
        r
    }

    /// Whether the run is profiled: exactly when a report file is named.
    pub fn profiled(&self) -> (b: bool)
        ensures
            b == self.report_file is Some,
    {
        self.report_file.is_some()
    }
}

} // verus!
