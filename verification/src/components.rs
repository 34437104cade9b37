//! Components of the game's entities.

use vstd::prelude::*;

verus! {

/// Marks the player.
#[derive(Clone, Copy, PartialEq, Eq, Debug, Default, Structural)]
pub struct Player;

/// Marks a wall block.
#[derive(Clone, Copy, PartialEq, Eq, Debug, Default, Structural)]
pub struct Wall;

/// Marks an overlay that darkens a tile.
#[derive(Clone, Copy, PartialEq, Eq, Debug, Default, Structural)]
pub struct Hidden {
    pub visibility: u8,
}

/// The components of a wall block.
#[derive(Clone, Copy, PartialEq, Eq, Debug, Default, Structural)]
pub struct WallBundle {
    pub wall: Wall,
}

/// A place the player walks to; one of them at a time is active.
#[derive(Clone, Copy, PartialEq, Eq, Debug, Default, Structural)]
pub struct PointOfInterest {
    pub active: bool,
}

/// Marks a block of the path the player follows.
#[derive(Clone, Copy, PartialEq, Eq, Debug, Default, Structural)]
pub struct Path;

/// The value of a field of a map entity, as far as the game reads it.
#[derive(Clone, Copy, PartialEq, Eq, Debug, Structural)]
pub enum FieldValue {
    Bool(bool),
    Other,
}

/// A field of a map entity: its name and its value.
pub struct FieldInstance {
    pub identifier: String,
    pub value: FieldValue,
}

/// The first field named `active` of the fields, from `from` on, decides
/// whether a chest is active; a chest is inactive when that field is not a
/// boolean, or when no field is named so.
pub open spec fn active_field_from(fields: Seq<FieldInstance>, from: int) -> bool
    decreases fields.len() - from,
{
    if from < 0 || from >= fields.len() {
        false
    } else if fields[from].identifier@ == "active"@ {
        fields[from].value == FieldValue::Bool(true)
    } else {
        active_field_from(fields, from + 1)
    }
}

impl PointOfInterest {
    /// The point of interest of a chest read from the map: active as its
    /// first field named `active` says.
    pub fn from_entity_fields(field_instances: &Vec<FieldInstance>) -> (r: PointOfInterest)
        ensures
            r.active == active_field_from(field_instances@, 0),
    {
        let name = "active".to_owned();
        let n = field_instances.len();
        let mut i: usize = 0;
        while i < n
            invariant
                n == field_instances.len(),
                0 <= i <= n,
                name@ == "active"@,
                active_field_from(field_instances@, 0) == active_field_from(field_instances@, i as int),
            decreases n - i,
        {
            if field_instances[i].identifier == name {
                return match field_instances[i].value {
                    FieldValue::Bool(active) => PointOfInterest { active },
                    _ => PointOfInterest { active: false },
                };
            }
            i = i + 1;
        }
        PointOfInterest { active: false }
    }
}

} // verus!
