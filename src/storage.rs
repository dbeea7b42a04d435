use vstd::prelude::*;

verus! {

/// Distance below which the combine hands its crop to the truck, in
/// thousandths of a world unit.
pub const TRANSFER_RANGE: i64 = 15_000;

/// A point in the world, in thousandths of a world unit.
#[derive(Clone, Copy, Debug, PartialEq, Eq, Structural, Default)]
pub struct Position {
    pub x: i64,
    pub y: i64,
    pub z: i64,
}

/// What the combine has gathered and can hold.
#[derive(Clone, Copy, Debug, PartialEq, Eq, Structural)]
pub struct CombineStorage {
    pub capacity: u32,
    pub contents: u32,
}

/// What the truck carries and can hold.
#[derive(Clone, Copy, Debug, PartialEq, Eq, Structural)]
pub struct TruckStorage {
    pub capacity: u32,
    pub contents: u32,
}

impl CombineStorage {
    /// Contents never exceed capacity.
    pub open spec fn wf(self) -> bool {
        self.contents <= self.capacity
    }

    /// An empty store of the given capacity.
    pub fn new(capacity: u32) -> (s: CombineStorage)
        ensures
            s.wf(),
            s.capacity == capacity,
            s.contents == 0,
    {
        CombineStorage { capacity, contents: 0 }
    }
}

impl TruckStorage {
    /// Contents never exceed capacity.
    pub open spec fn wf(self) -> bool {
        self.contents <= self.capacity
    }

    /// An empty store of the given capacity.
    pub fn new(capacity: u32) -> (s: TruckStorage)
        ensures
            s.wf(),
            s.capacity == capacity,
            s.contents == 0,
    {
        TruckStorage { capacity, contents: 0 }
    }
}

pub open spec fn square(d: int) -> int {
    d * d
}

/// Squared distance between two points.
pub open spec fn distance_squared(a: Position, b: Position) -> int {
    square(a.x - b.x) + square(a.y - b.y) + square(a.z - b.z)
}

/// The two points are closer than `TRANSFER_RANGE`.
pub open spec fn within_transfer_range(a: Position, b: Position) -> bool {
    distance_squared(a, b) < square(TRANSFER_RANGE as int)
}

pub open spec fn min(a: int, b: int) -> int {
    if a <= b { a } else { b }
}

/// What one transfer tick moves: as much as the truck has room for and the
/// combine holds.
pub open spec fn transfer_amount(combine: CombineStorage, truck: TruckStorage) -> int {
    min(truck.capacity - truck.contents, combine.contents as int)
}

/// Whether `a` and `b` are closer than `TRANSFER_RANGE`.
pub fn in_transfer_range(a: &Position, b: &Position) -> (r: bool)
    ensures
        r == within_transfer_range(*a, *b),
{
    let dx: i128 = a.x as i128 - b.x as i128;
    let dy: i128 = a.y as i128 - b.y as i128;
    let dz: i128 = a.z as i128 - b.z as i128;
    let range: i128 = TRANSFER_RANGE as i128;
    if dx <= -range || dx >= range || dy <= -range || dy >= range || dz <= -range || dz >= range {
        proof {
            lemma_far_axis(dx as int, dy as int, dz as int, range as int);
        }
        return false;
    }
    assert(0 <= dx * dx < range * range && 0 <= dy * dy < range * range && 0 <= dz * dz < range * range)
        by (nonlinear_arith)
        requires
            -range < dx < range,
            -range < dy < range,
            -range < dz < range,
            range == 15_000,
    {
    }
    dx * dx + dy * dy + dz * dz < range * range
}

/// One axis at least `range` apart puts the points out of range.
proof fn lemma_far_axis(dx: int, dy: int, dz: int, range: int)
    requires
        range > 0,
        dx <= -range || dx >= range || dy <= -range || dy >= range || dz <= -range || dz >= range,
    ensures
        square(dx) + square(dy) + square(dz) >= square(range),
{
    assert(square(dx) >= 0 && square(dy) >= 0 && square(dz) >= 0) by (nonlinear_arith);
    assert(square(dx) >= square(range) || square(dy) >= square(range) || square(dz) >= square(range))
        by (nonlinear_arith)
        requires
            range > 0,
            dx <= -range || dx >= range || dy <= -range || dy >= range || dz <= -range || dz
                >= range,
    {
    }
}

/// Moves crop from the combine to the truck while both exist and stand
/// within `TRANSFER_RANGE` of each other; returns the amount moved.
pub fn transfer_harvest(
    combine: Option<Position>,
    truck: Option<Position>,
    combine_store: &mut CombineStorage,
    truck_store: &mut TruckStorage,
) -> (moved: u32)
    requires
        old(combine_store).wf(),
        old(truck_store).wf(),
    ensures
        final(combine_store).wf(),
        final(truck_store).wf(),
        final(combine_store).capacity == old(combine_store).capacity,
        final(truck_store).capacity == old(truck_store).capacity,
        moved == (match (combine, truck) {
            (Some(c), Some(t)) => if within_transfer_range(c, t) {
                transfer_amount(*old(combine_store), *old(truck_store))
            } else {
                0
            },
            _ => 0,
        }),
        final(truck_store).contents == old(truck_store).contents + moved,
        final(combine_store).contents == old(combine_store).contents - moved,
{
    match (combine, truck) {
        (Some(c), Some(t)) => {
            if in_transfer_range(&c, &t) {
                let room: u32 = truck_store.capacity - truck_store.contents;
                let to_transfer: u32 = if room <= combine_store.contents {
                    room
                } else {
                    combine_store.contents
                };
                truck_store.contents = truck_store.contents + to_transfer;
                combine_store.contents = combine_store.contents - to_transfer;
                to_transfer
            } else {
                0
            }
        },
        _ => 0,
    }
}

} // verus!
