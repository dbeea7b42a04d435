use vstd::prelude::*;
use crate::random::random_degrees;

verus! {

/// Gap between a field's crops and its fence, in world units.
pub const FIELD_BORDER: i64 = 2;

/// Length of one fence segment, in world units.
pub const FENCE_SIZE: i64 = 2;

/// Half the width of the opening left for the entrance, in world units.
pub const ENTRANCE_HALF_WIDTH: i64 = 6;

/// Spacing of the crop grid, in world units.
pub const CORN_SIZE: i64 = 2;

/// Yield of one crop plant.
pub const CROP_AMOUNT: u32 = 1;

/// A side of a field.
#[derive(Clone, Copy, Debug, PartialEq, Eq, Structural)]
pub enum CompassPoint {
    North,
    East,
    South,
    West,
}

/// A rectangular crop field: centre, half extents along `x` and `z` (whole
/// world units) and the side that has the entrance.
#[derive(Clone, Copy, Debug, PartialEq, Eq, Structural)]
pub struct Field {
    pub x: i32,
    pub z: i32,
    pub half_x: u16,
    pub half_z: u16,
    pub entrance: CompassPoint,
}

/// One fence segment: where it stands and whether it is turned a quarter
/// turn (the segments along the north and south sides are).
#[derive(Clone, Copy, Debug, PartialEq, Eq, Structural)]
pub struct FencePlacement {
    pub x: i64,
    pub z: i64,
    pub quarter_turn: bool,
}

/// One crop plant: where it stands and its rotation in whole degrees.
#[derive(Clone, Copy, Debug, PartialEq, Eq, Structural)]
pub struct CropPlacement {
    pub x: i64,
    pub z: i64,
    pub rotation_degrees: u32,
}

pub open spec fn fence_half_x(f: Field) -> int {
    f.half_x + FIELD_BORDER
}

pub open spec fn fence_half_z(f: Field) -> int {
    f.half_z + FIELD_BORDER
}

pub open spec fn edge_north(f: Field) -> int {
    f.z + fence_half_z(f)
}

pub open spec fn edge_south(f: Field) -> int {
    f.z - fence_half_z(f)
}

pub open spec fn edge_east(f: Field) -> int {
    f.x - fence_half_x(f)
}

pub open spec fn edge_west(f: Field) -> int {
    f.x + fence_half_x(f)
}

/// The entrance leaves out the segments of its side that lie within
/// `ENTRANCE_HALF_WIDTH` of the side's middle.
pub open spec fn in_entrance(f: Field, side: CompassPoint, offset: int) -> bool {
    f.entrance == side && -ENTRANCE_HALF_WIDTH <= offset <= ENTRANCE_HALF_WIDTH
}

pub open spec fn segment_if(keep: bool, p: FencePlacement) -> Seq<FencePlacement> {
    if keep {
        seq![p]
    } else {
        seq![]
    }
}

/// Segments of the north and south sides at the first `k` steps along `x`,
/// from the east edge.
pub open spec fn north_south_fences(f: Field, k: nat) -> Seq<FencePlacement>
    decreases k,
{
    if k == 0 {
        seq![]
    } else {
        let x = edge_east(f) + FENCE_SIZE * (k - 1);
        north_south_fences(f, (k - 1) as nat) + segment_if(
            !in_entrance(f, CompassPoint::North, x - f.x),
            FencePlacement { x: (x - FENCE_SIZE / 2) as i64, z: (edge_north(f) + FENCE_SIZE) as i64, quarter_turn: true },
        ) + segment_if(
            !in_entrance(f, CompassPoint::South, x - f.x),
            FencePlacement { x: (x - FENCE_SIZE / 2) as i64, z: edge_south(f) as i64, quarter_turn: true },
        )
    }
}

/// Segments of the east and west sides at the first `k` steps along `z`,
/// from the south edge.
pub open spec fn east_west_fences(f: Field, k: nat) -> Seq<FencePlacement>
    decreases k,
{
    if k == 0 {
        seq![]
    } else {
        let z = edge_south(f) + FENCE_SIZE * (k - 1);
        east_west_fences(f, (k - 1) as nat) + segment_if(
            !in_entrance(f, CompassPoint::East, z - f.z),
            FencePlacement { x: (edge_east(f) - FENCE_SIZE) as i64, z: (z + FENCE_SIZE / 2) as i64, quarter_turn: false },
        ) + segment_if(
            !in_entrance(f, CompassPoint::West, z - f.z),
            FencePlacement { x: edge_west(f) as i64, z: (z + FENCE_SIZE / 2) as i64, quarter_turn: false },
        )
    }
}

/// The whole fence: the sides run from edge to edge in steps of
/// `FENCE_SIZE`, both ends included.
pub open spec fn fence_layout(f: Field) -> Seq<FencePlacement> {
    north_south_fences(f, (fence_half_x(f) + 1) as nat) + east_west_fences(
        f,
        (fence_half_z(f) + 1) as nat,
    )
}

/// Number of crop columns (along `x`) and rows (along `z`): one every
/// `CORN_SIZE` across the field, at least one.
pub open spec fn crop_columns(f: Field) -> nat {
    if f.half_x == 0 { 1 } else { f.half_x as nat }
}

pub open spec fn crop_rows(f: Field) -> nat {
    if f.half_z == 0 { 1 } else { f.half_z as nat }
}

/// The crop in column `i` and row `j`.
pub open spec fn crop_at(f: Field, i: int, j: int, rotation: u32) -> CropPlacement {
    CropPlacement {
        x: (f.x - f.half_x + CORN_SIZE * i) as i64,
        z: (f.z - f.half_z + CORN_SIZE * j) as i64,
        rotation_degrees: rotation,
    }
}

/// Column `i` of the crop grid, south to north.
pub open spec fn crop_column(f: Field, i: int, rotation: u32) -> Seq<CropPlacement> {
    Seq::new(crop_rows(f), |j: int| crop_at(f, i, j, rotation))
}

/// The first `k` columns of the crop grid, east to west; column `i` is
/// turned by `rotations[i]`.
pub open spec fn crop_layout(f: Field, rotations: Seq<u32>, k: nat) -> Seq<CropPlacement>
    decreases k,
{
    if k == 0 {
        seq![]
    } else {
        crop_layout(f, rotations, (k - 1) as nat) + crop_column(f, k - 1, rotations[k - 1])
    }
}

/// The fence around a field, with the opening for its entrance.
pub fn create_fences(field: &Field) -> (fences: Vec<FencePlacement>)
    ensures
        fences@ == fence_layout(*field),
{
    let fx: i64 = field.x as i64;
    let fz: i64 = field.z as i64;
    let half_x: i64 = field.half_x as i64 + FIELD_BORDER;
    let half_z: i64 = field.half_z as i64 + FIELD_BORDER;
    let edge_n: i64 = fz + half_z;
    let edge_s: i64 = fz - half_z;
    let edge_e: i64 = fx - half_x;
    let edge_w: i64 = fx + half_x;
    let mut fences: Vec<FencePlacement> = Vec::new();
    let mut k: i64 = 0;
    while k <= half_x
        invariant
            0 <= k <= half_x + 1,
            half_x == fence_half_x(*field),
            fx == field.x,
            edge_n == edge_north(*field),
            edge_s == edge_south(*field),
            edge_e == edge_east(*field),
            fences@ == north_south_fences(*field, k as nat),
        decreases half_x + 1 - k,
    {
        let x: i64 = edge_e + FENCE_SIZE * k;
        let offset: i64 = x - fx;
        let north_open = field.entrance == CompassPoint::North && -ENTRANCE_HALF_WIDTH <= offset
            && offset <= ENTRANCE_HALF_WIDTH;
        let south_open = field.entrance == CompassPoint::South && -ENTRANCE_HALF_WIDTH <= offset
            && offset <= ENTRANCE_HALF_WIDTH;
        let p_n = FencePlacement { x: x - FENCE_SIZE / 2, z: edge_n + FENCE_SIZE, quarter_turn: true };
        let p_s = FencePlacement { x: x - FENCE_SIZE / 2, z: edge_s, quarter_turn: true };
        let ghost before = fences@;
        if !north_open {
            fences.push(p_n);
        }
        let ghost middle = fences@;
        if !south_open {
            fences.push(p_s);
        }
        proof {
            assert(middle =~= before + segment_if(!north_open, p_n));
            assert(fences@ =~= before + segment_if(!north_open, p_n) + segment_if(!south_open, p_s));
        }
        k = k + 1;
    }
    let ghost rows = fences@;
    let mut k: i64 = 0;
    while k <= half_z
        invariant
            0 <= k <= half_z + 1,
            half_z == fence_half_z(*field),
            fz == field.z,
            edge_s == edge_south(*field),
            edge_e == edge_east(*field),
            edge_w == edge_west(*field),
            rows == north_south_fences(*field, (fence_half_x(*field) + 1) as nat),
            fences@ == rows + east_west_fences(*field, k as nat),
        decreases half_z + 1 - k,
    {
        let z: i64 = edge_s + FENCE_SIZE * k;
        let offset: i64 = z - fz;
        let east_open = field.entrance == CompassPoint::East && -ENTRANCE_HALF_WIDTH <= offset
            && offset <= ENTRANCE_HALF_WIDTH;
        let west_open = field.entrance == CompassPoint::West && -ENTRANCE_HALF_WIDTH <= offset
            && offset <= ENTRANCE_HALF_WIDTH;
        let p_e = FencePlacement { x: edge_e - FENCE_SIZE, z: z + FENCE_SIZE / 2, quarter_turn: false };
        let p_w = FencePlacement { x: edge_w, z: z + FENCE_SIZE / 2, quarter_turn: false };
        let ghost before = fences@;
        if !east_open {
            fences.push(p_e);
        }
        let ghost middle = fences@;
        if !west_open {
            fences.push(p_w);
        }
        proof {
            assert(middle =~= before + segment_if(!east_open, p_e));
            assert(fences@ =~= before + segment_if(!east_open, p_e) + segment_if(!west_open, p_w));
            assert(rows + east_west_fences(*field, (k + 1) as nat) =~= before + segment_if(!east_open, p_e)
                + segment_if(!west_open, p_w));
        }
        k = k + 1;
    }
    fences
}

/// The crop grid of a field, with one rotation for each column.
pub fn plant_crops(field: &Field, rotations: &Vec<u32>) -> (crops: Vec<CropPlacement>)
    requires
        rotations.len() == crop_columns(*field),
    ensures
        crops@ == crop_layout(*field, rotations@, crop_columns(*field)),
{
    let columns: u16 = if field.half_x == 0 { 1 } else { field.half_x };
    let rows: u16 = if field.half_z == 0 { 1 } else { field.half_z };
    let x0: i64 = field.x as i64 - field.half_x as i64;
    let z0: i64 = field.z as i64 - field.half_z as i64;
    let mut crops: Vec<CropPlacement> = Vec::new();
    let mut i: u16 = 0;
    while i < columns
        invariant
            i <= columns,
            columns == crop_columns(*field),
            rows == crop_rows(*field),
            rotations.len() == columns,
            x0 == field.x - field.half_x,
            z0 == field.z - field.half_z,
            crops@ == crop_layout(*field, rotations@, i as nat),
        decreases columns - i,
    {
        let rotation: u32 = rotations[i as usize];
        let ghost before = crops@;
        let mut j: u16 = 0;
        while j < rows
            invariant
                j <= rows,
                i < columns,
                rows == crop_rows(*field),
                rotation == rotations@[i as int],
                x0 == field.x - field.half_x,
                z0 == field.z - field.half_z,
                crops@ == before + crop_column(*field, i as int, rotation).take(j as int),
            decreases rows - j,
        {
            crops.push(CropPlacement {
                x: x0 + CORN_SIZE * i as i64,
                z: z0 + CORN_SIZE * j as i64,
                rotation_degrees: rotation,
            });
            assert(crop_column(*field, i as int, rotation).take(j as int + 1) =~= crop_column(
                *field,
                i as int,
                rotation,
            ).take(j as int).push(crop_at(*field, i as int, j as int, rotation)));
            j = j + 1;
        }
        assert(crop_column(*field, i as int, rotation).take(rows as int) =~= crop_column(
            *field,
            i as int,
            rotation,
        ));
        i = i + 1;
    }
    crops
}

/// Lays out a field: its fence, and its crops with a random rotation for
/// each column.
pub fn create_field(field: &Field) -> (layout: (Vec<FencePlacement>, Vec<CropPlacement>))
    ensures
        layout.0@ == fence_layout(*field),
        exists|rotations: Seq<u32>|
            {
                &&& rotations.len() == crop_columns(*field)
                &&& forall|i: int| 0 <= i < rotations.len() ==> rotations[i] < 359
                &&& layout.1@ == crop_layout(*field, rotations, crop_columns(*field))
            },
{
    let fences = create_fences(field);
    let columns: u16 = if field.half_x == 0 { 1 } else { field.half_x };
    let mut rotations: Vec<u32> = Vec::new();
    let mut i: u16 = 0;
    while i < columns
        invariant
            i <= columns,
            rotations.len() == i,
            forall|k: int| 0 <= k < rotations.len() ==> rotations@[k] < 359,
        decreases columns - i,
    {
        rotations.push(random_degrees());
        i = i + 1;
    }
    let crops = plant_crops(field, &rotations);
    (fences, crops)
}

pub open spec fn farm_field(x: int, z: int, entrance: CompassPoint) -> Field {
    Field { x: x as i32, z: z as i32, half_x: 18, half_z: 18, entrance }
}

/// The farm's six fields: three north of the road with their entrances to the
/// south, three south of it with their entrances to the north.
pub fn farm_fields() -> (fields: Vec<Field>)
    ensures
        fields@ == seq![
            farm_field(-52, 30, CompassPoint::South),
            farm_field(-10, 30, CompassPoint::South),
            farm_field(32, 30, CompassPoint::South),
            farm_field(-52, -30, CompassPoint::North),
            farm_field(-10, -30, CompassPoint::North),
            farm_field(32, -30, CompassPoint::North),
        ],
{
    let fields = vec![
        Field { x: -52, z: 30, half_x: 18, half_z: 18, entrance: CompassPoint::South },
        Field { x: -10, z: 30, half_x: 18, half_z: 18, entrance: CompassPoint::South },
        Field { x: 32, z: 30, half_x: 18, half_z: 18, entrance: CompassPoint::South },
        Field { x: -52, z: -30, half_x: 18, half_z: 18, entrance: CompassPoint::North },
        Field { x: -10, z: -30, half_x: 18, half_z: 18, entrance: CompassPoint::North },
        Field { x: 32, z: -30, half_x: 18, half_z: 18, entrance: CompassPoint::North },
    ];
    assert(fields@ =~= seq![
        farm_field(-52, 30, CompassPoint::South),
        farm_field(-10, 30, CompassPoint::South),
        farm_field(32, 30, CompassPoint::South),
        farm_field(-52, -30, CompassPoint::North),
        farm_field(-10, -30, CompassPoint::North),
        farm_field(32, -30, CompassPoint::North),
    ]);
    fields
}

} // verus!
