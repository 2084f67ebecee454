//! The units of the opening scene: their classes, attributes and places.

use vstd::prelude::*;
use crate::flags::Allegiance;
use crate::tiles::TILE_SIZE;

verus! {

/// Drawing layer of the units; the tiles lie on layer 0 below them.
pub const UNIT_LAYER: u32 = 1;

/// The three kinds of unit.
#[derive(Clone, Copy, Debug, PartialEq, Eq, Structural)]
pub enum UnitClass {
    Guardian,
    Fighter,
    Striker,
}

/// The combat attributes of a unit. Defence is the share of incoming damage
/// that is absorbed, in hundredths; movement and engagement range are in pixels.
#[derive(Clone, Copy, Debug, PartialEq, Eq, Structural)]
pub struct Operator {
    pub hp: u32,
    pub def_percent: u32,
    pub atk: u32,
    pub mov: u32,
    pub rag: u32,
}

impl Operator {
    /// The attributes that every unit of the class starts with.
    pub open spec fn spec_preset(class: UnitClass) -> Operator {
        match class {
            UnitClass::Guardian => Operator { hp: 200, def_percent: 50, atk: 50, mov: 16, rag: 16 },
            UnitClass::Fighter => Operator { hp: 150, def_percent: 10, atk: 100, mov: 48, rag: 16 },
            UnitClass::Striker => Operator { hp: 100, def_percent: 0, atk: 75, mov: 32, rag: 64 },
        }
    }

    /// The attributes that every unit of the class starts with.
    pub fn preset(class: UnitClass) -> (stats: Operator)
        ensures
            stats == Self::spec_preset(class),
    {
        match class {
            UnitClass::Guardian => Operator { hp: 200, def_percent: 50, atk: 50, mov: 16, rag: 16 },
            UnitClass::Fighter => Operator { hp: 150, def_percent: 10, atk: 100, mov: 48, rag: 16 },
            UnitClass::Striker => Operator { hp: 100, def_percent: 0, atk: 75, mov: 32, rag: 64 },
        }
    }

    /// No two classes start with the same attributes.
    pub proof fn lemma_presets_distinct(a: UnitClass, b: UnitClass)
        requires
            a != b,
        ensures
            Self::spec_preset(a) != Self::spec_preset(b),
    {
    }
}

/// The image a unit is drawn with: one per class, and a variant of each for
/// the enemy.
pub open spec fn spec_sprite_file(class: UnitClass, allegiance: Allegiance) -> Seq<char> {
    match (class, allegiance) {
        (UnitClass::Guardian, Allegiance::Ally) => "shield.png"@,
        (UnitClass::Fighter, Allegiance::Ally) => "sword.png"@,
        (UnitClass::Striker, Allegiance::Ally) => "bow.png"@,
        (UnitClass::Guardian, Allegiance::Enemy) => "shield-enemy.png"@,
        (UnitClass::Fighter, Allegiance::Enemy) => "sword-enemy.png"@,
        (UnitClass::Striker, Allegiance::Enemy) => "bow-enemy.png"@,
    }
}

/// The image a unit is drawn with.
pub fn sprite_file(class: UnitClass, allegiance: Allegiance) -> (file: &'static str)
    ensures
        file@ == spec_sprite_file(class, allegiance),
{
    match (class, allegiance) {
        (UnitClass::Guardian, Allegiance::Ally) => "shield.png",
        (UnitClass::Fighter, Allegiance::Ally) => "sword.png",
        (UnitClass::Striker, Allegiance::Ally) => "bow.png",
        (UnitClass::Guardian, Allegiance::Enemy) => "shield-enemy.png",
        (UnitClass::Fighter, Allegiance::Enemy) => "sword-enemy.png",
        (UnitClass::Striker, Allegiance::Enemy) => "bow-enemy.png",
    }
}

/// The name a unit is listed under.
pub open spec fn spec_unit_name(class: UnitClass, allegiance: Allegiance) -> Seq<char> {
    match (class, allegiance) {
        (UnitClass::Guardian, Allegiance::Ally) => "GUARDIAN"@,
        (UnitClass::Fighter, Allegiance::Ally) => "FIGHTER"@,
        (UnitClass::Striker, Allegiance::Ally) => "STRIKER"@,
        (UnitClass::Guardian, Allegiance::Enemy) => "GUARDIAN ENEMY"@,
        (UnitClass::Fighter, Allegiance::Enemy) => "FIGHTER ENEMY"@,
        (UnitClass::Striker, Allegiance::Enemy) => "STRIKER ENEMY"@,
    }
}

/// The name a unit is listed under.
pub fn unit_name(class: UnitClass, allegiance: Allegiance) -> (name: &'static str)
    ensures
        name@ == spec_unit_name(class, allegiance),
{
    match (class, allegiance) {
        (UnitClass::Guardian, Allegiance::Ally) => "GUARDIAN",
        (UnitClass::Fighter, Allegiance::Ally) => "FIGHTER",
        (UnitClass::Striker, Allegiance::Ally) => "STRIKER",
        (UnitClass::Guardian, Allegiance::Enemy) => "GUARDIAN ENEMY",
        (UnitClass::Fighter, Allegiance::Enemy) => "FIGHTER ENEMY",
        (UnitClass::Striker, Allegiance::Enemy) => "STRIKER ENEMY",
    }
}

/// One unit of the scene: what it is, whose it is, and where it stands, in
/// pixels from the map's origin.
#[derive(Clone, Copy, Debug, PartialEq, Eq, Structural)]
pub struct UnitPlacement {
    pub class: UnitClass,
    pub allegiance: Allegiance,
    pub x: u32,
    pub y: u32,
}

/// The units of the opening scene in the order they enter it: the allies
/// first, then the enemies.
pub open spec fn spec_unit_roster() -> Seq<UnitPlacement> {
    seq![
        UnitPlacement { class: UnitClass::Striker, allegiance: Allegiance::Ally, x: 0, y: 0 },
        UnitPlacement { class: UnitClass::Fighter, allegiance: Allegiance::Ally, x: 64, y: 64 },
        UnitPlacement { class: UnitClass::Guardian, allegiance: Allegiance::Ally, x: 32, y: 32 },
        UnitPlacement { class: UnitClass::Striker, allegiance: Allegiance::Enemy, x: 144, y: 144 },
        UnitPlacement { class: UnitClass::Fighter, allegiance: Allegiance::Enemy, x: 80, y: 80 },
        UnitPlacement { class: UnitClass::Guardian, allegiance: Allegiance::Enemy, x: 112, y: 112 },
    ]
}

/// How many of `units` fight on `side`.
pub open spec fn side_count(units: Seq<UnitPlacement>, side: Allegiance) -> nat
    decreases units.len(),
{
    if units.len() == 0 {
        0
    } else {
        let rest = side_count(units.drop_last(), side);
        if units.last().allegiance == side {
            rest + 1
        } else {
            rest
        }
    }
}

/// The units of the opening scene, allies first.
pub fn unit_roster() -> (units: Vec<UnitPlacement>)
    ensures
        units@ == spec_unit_roster(),
{
    let mut units: Vec<UnitPlacement> = Vec::new();
    units.push(
        UnitPlacement { class: UnitClass::Striker, allegiance: Allegiance::Ally, x: 0, y: 0 },
    );
    units.push(
        UnitPlacement {
            class: UnitClass::Fighter,
            allegiance: Allegiance::Ally,
            x: 4 * TILE_SIZE,
            y: 4 * TILE_SIZE,
        },
    );
    units.push(
        UnitPlacement { class: UnitClass::Guardian, allegiance: Allegiance::Ally, x: 32, y: 32 },
    );
    units.push(
        UnitPlacement {
            class: UnitClass::Striker,
            allegiance: Allegiance::Enemy,
            x: 9 * TILE_SIZE,
            y: 9 * TILE_SIZE,
        },
    );
    units.push(
        UnitPlacement {
            class: UnitClass::Fighter,
            allegiance: Allegiance::Enemy,
            x: 5 * TILE_SIZE,
            y: 5 * TILE_SIZE,
        },
    );
    units.push(
        UnitPlacement {
            class: UnitClass::Guardian,
            allegiance: Allegiance::Enemy,
            x: 7 * TILE_SIZE,
            y: 7 * TILE_SIZE,
        },
    );
    assert(units@ =~= spec_unit_roster());
    units
}

/// The scene holds three allies and three enemies, and nothing else.
pub proof fn lemma_roster_sides()
    ensures
        spec_unit_roster().len() == 6,
        side_count(spec_unit_roster(), Allegiance::Ally) == 3,
        side_count(spec_unit_roster(), Allegiance::Enemy) == 3,
{
    let r = spec_unit_roster();
    let r5 = r.drop_last();
    let r4 = r5.drop_last();
    let r3 = r4.drop_last();
    let r2 = r3.drop_last();
    let r1 = r2.drop_last();
    let r0 = r1.drop_last();
    assert(r0.len() == 0);
    reveal_with_fuel(side_count, 7);
}

/// No two units of one side are of the same class, so none of them share
/// their attributes.
pub proof fn lemma_roster_classes_unique(i: int, j: int)
    requires
        0 <= i < j < spec_unit_roster().len(),
        spec_unit_roster()[i].allegiance == spec_unit_roster()[j].allegiance,
    ensures
        spec_unit_roster()[i].class != spec_unit_roster()[j].class,
        Operator::spec_preset(spec_unit_roster()[i].class) != Operator::spec_preset(
            spec_unit_roster()[j].class,
        ),
{
}

} // verus!
