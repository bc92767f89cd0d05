//! Names: the kind of an entity from its written name, and the display names
//! of the entities of the starting scene.

use vstd::prelude::*;
use vstd::string::StringExecFns;
use crate::entity::EntityType;

verus! {

/// The character of a decimal digit.
pub open spec fn digit_char(d: nat) -> char {
    if d == 0 {
        '0'
    } else if d == 1 {
        '1'
    } else if d == 2 {
        '2'
    } else if d == 3 {
        '3'
    } else if d == 4 {
        '4'
    } else if d == 5 {
        '5'
    } else if d == 6 {
        '6'
    } else if d == 7 {
        '7'
    } else if d == 8 {
        '8'
    } else {
        '9'
    }
}

/// A number written in decimal, without leading zeros.
pub open spec fn decimal(n: nat) -> Seq<char>
    decreases n,
{
    if n < 10 {
        seq![digit_char(n)]
    } else {
        decimal(n / 10).push(digit_char(n % 10))
    }
}

/// Display name of the environment entity with number `index`.
pub open spec fn object_label(index: u32) -> Seq<char> {
    "Object_"@ + decimal(index as nat)
}

/// The kind that a written name stands for; an unknown name is part of the environment.
pub open spec fn kind_named(name: Seq<char>) -> EntityType {
    if name == "Player"@ {
        EntityType::Player
    } else if name == "Pickup"@ {
        EntityType::Pickup
    } else if name == "Projectile"@ {
        EntityType::Projectile
    } else {
        EntityType::Environment
    }
}

fn digit_text(d: u32) -> (text: &'static str)
    requires
        d < 10,
    ensures
        text@ == seq![digit_char(d as nat)],
{
    proof {
        reveal_strlit("0");
        reveal_strlit("1");
        reveal_strlit("2");
        reveal_strlit("3");
        reveal_strlit("4");
        reveal_strlit("5");
        reveal_strlit("6");
        reveal_strlit("7");
        reveal_strlit("8");
        reveal_strlit("9");
    }
    let text: &'static str = if d == 0 {
        "0"
    } else if d == 1 {
        "1"
    } else if d == 2 {
        "2"
    } else if d == 3 {
        "3"
    } else if d == 4 {
        "4"
    } else if d == 5 {
        "5"
    } else if d == 6 {
        "6"
    } else if d == 7 {
        "7"
    } else if d == 8 {
        "8"
    } else {
        "9"
    };
    assert(text@ =~= seq![digit_char(d as nat)]);
    text
}

/// Writes `n` in decimal.
pub fn decimal_string(n: u32) -> (text: String)
    ensures
        text@ == decimal(n as nat),
    decreases n,
{
    if n < 10 {
        String::from_str(digit_text(n))
    } else {
        let mut text = decimal_string(n / 10);
        text.append(digit_text(n % 10));
        text
    }
}

/// The display name of the environment entity with number `index`.
pub fn object_name(index: u32) -> (name: String)
    ensures
        name@ == object_label(index),
{
    let mut name = String::from_str("Object_");
    let digits = decimal_string(index);
    name.append(digits.as_str());
    name
}

/// Whether two texts are the same.
fn same_text(a: &str, b: &str) -> (same: bool)
    ensures
        same == (a@ == b@),
{
    String::from_str(a) == String::from_str(b)
}

impl EntityType {
    /// Reads a kind from its written name; an unknown name is part of the environment.
    pub fn from_name(name: &str) -> (kind: EntityType)
        ensures
            kind == kind_named(name@),
    {
        if same_text(name, "Player") {
            EntityType::Player
        } else if same_text(name, "Pickup") {
            EntityType::Pickup
        } else if same_text(name, "Projectile") {
            EntityType::Projectile
        } else {
            EntityType::Environment
        }
    }
}

} // verus!
