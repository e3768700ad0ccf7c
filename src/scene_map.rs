//! A coordinate-queryable map of entities, for spatial queries by cell.
use crate::entity::Entity;
use crate::scene::{cell_of, term_coords};
use std::collections::HashMap;
use vstd::prelude::*;

verus! {

broadcast use vstd::std_specs::hash::group_hash_axioms;

/// Entities keyed by the cell they occupy (see `cell_key`).
pub type EntityMap = HashMap<u32, Entity>;

/// The key of a cell: the column in the high half, the row in the low half.
pub open spec fn cell_key(x: u16, y: u16) -> u32 {
    (x as int * 0x1_0000 + y as int) as u32
}

/// The key of the cell where an entity is drawn.
pub open spec fn entity_key(e: Entity) -> u32 {
    cell_key(cell_of(e.pos.0 as int) as u16, cell_of(e.pos.1 as int) as u16)
}

fn key(x: u16, y: u16) -> (r: u32)
    ensures
        r == cell_key(x, y),
{
    x as u32 * 0x1_0000 + y as u32
}

/// The cells around `(x, y)` that `adjacent` looks at, in order: right,
/// lower right, below; then left and lower left when `x > 1`; upper right and
/// above when `y > 1`; upper left when both.
pub open spec fn adjacent_cells(x: u16, y: u16) -> Seq<(u16, u16)> {
    let base = seq![((x + 1) as u16, y), ((x + 1) as u16, (y + 1) as u16), (x, (y + 1) as u16)];
    let left = if x > 1 {
        seq![((x - 1) as u16, y), ((x - 1) as u16, (y + 1) as u16)]
    } else {
        Seq::empty()
    };
    let up = if y > 1 {
        seq![((x + 1) as u16, (y - 1) as u16), (x, (y - 1) as u16)]
    } else {
        Seq::empty()
    };
    let corner = if x > 1 && y > 1 {
        seq![((x - 1) as u16, (y - 1) as u16)]
    } else {
        Seq::empty()
    };
    base + left + up + corner
}

/// The entities of `m` at `cells[0..upto]`, in order, skipping empty cells.
pub open spec fn present(m: Map<u32, Entity>, cells: Seq<(u16, u16)>, upto: int) -> Seq<Entity>
    decreases upto,
{
    if upto <= 0 {
        Seq::empty()
    } else {
        let prev = present(m, cells, upto - 1);
        let c = cells[upto - 1];
        if m.contains_key(cell_key(c.0, c.1)) {
            prev.push(m[cell_key(c.0, c.1)])
        } else {
            prev
        }
    }
}

/// The map of `entities[0..upto]`, each under the key of its cell; a later
/// entity replaces an earlier one in the same cell.
pub open spec fn map_of(entities: Seq<Entity>, upto: int) -> Map<u32, Entity>
    decreases upto,
{
    if upto <= 0 {
        Map::empty()
    } else {
        map_of(entities, upto - 1).insert(entity_key(entities[upto - 1]), entities[upto - 1])
    }
}

/// Returns the entities in the cells around `(x, y)` (see `adjacent_cells`).
pub fn adjacent(map: &EntityMap, x: u16, y: u16) -> (r: Vec<Entity>)
    requires
        x < u16::MAX,
        y < u16::MAX,
    ensures
        r@ == present(map@, adjacent_cells(x, y), adjacent_cells(x, y).len() as int),
{
    let mut coords: Vec<(u16, u16)> = vec![(x + 1, y), (x + 1, y + 1), (x, y + 1)];
    if x > 1 {
        coords.push((x - 1, y));
        coords.push((x - 1, y + 1));
    }
    if y > 1 {
        coords.push((x + 1, y - 1));
        coords.push((x, y - 1));
    }
    if x > 1 && y > 1 {
        coords.push((x - 1, y - 1));
    }
    assert(coords@ =~= adjacent_cells(x, y));
    let mut found: Vec<Entity> = Vec::new();
    let mut i: usize = 0;
    while i < coords.len()
        invariant
            i <= coords@.len(),
            coords@ == adjacent_cells(x, y),
            found@ == present(map@, coords@, i as int),
        decreases coords@.len() - i,
    {
        let c = coords[i];
        let k = key(c.0, c.1);
        if let Some(entity) = map.get(&k) {
            found.push(*entity);
        }
        i = i + 1;
    }
    found
}

/// Takes the entity at cell `(x, y)` out of the map, if there is one.
pub fn remove(map: &mut EntityMap, x: u16, y: u16) -> (r: Option<Entity>)
    ensures
        final(map)@ == old(map)@.remove(cell_key(x, y)),
        r == if old(map)@.contains_key(cell_key(x, y)) {
            Some(old(map)@[cell_key(x, y)])
        } else {
            None
        },
{
    map.remove(&key(x, y))
}

/// Puts an entity into the map at the cell where it is drawn, replacing any
/// entity there.
pub fn insert(map: &mut EntityMap, entity: Entity)
    ensures
        final(map)@ == old(map)@.insert(entity_key(entity), entity),
{
    let (x, y) = term_coords(entity.pos);
    let _ = map.insert(key(x, y), entity);
}

/// Creates a map of the entities, each at the cell where it is drawn.
pub fn make_entity_map(entities: &[Entity]) -> (r: EntityMap)
    ensures
        r@ == map_of(entities@, entities@.len() as int),
{
    let mut map: EntityMap = HashMap::new();
    let mut i: usize = 0;
    while i < entities.len()
        invariant
            i <= entities@.len(),
            map@ == map_of(entities@, i as int),
        decreases entities@.len() - i,
    {
        insert(&mut map, entities[i]);
        i = i + 1;
    }
    map
}

} // verus!
