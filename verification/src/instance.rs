//! The placed copies of the model: a square grid laid out once, whose
//! orientations then turn about the world's vertical axis frame by frame.
//!
//! Positions are kept in half world units so that the centring of a grid with
//! an odd side stays exact. An orientation is kept in the normal form "turn
//! about the vertical axis, after a turn about a fixed axis"; composing a
//! vertical turn on the left only moves the first component.

use vstd::prelude::*;
use vstd::arithmetic::div_mod::lemma_fundamental_div_mod_converse;
use crate::angle::Degrees;
use crate::angle::{lemma_plus_zero, lemma_plus_times};

verus! {

/// The largest grid side: the instance count `side * side` must fit the
/// 32-bit instance range of a draw call.
pub const MAX_GRID_SIZE: u32 = 65535;

/// Bytes of one uploaded instance record: a 4x4 model matrix followed by a
/// 3x3 normal matrix, each entry a 32-bit float.
pub const RAW_INSTANCE_BYTES: u64 = 100;

/// Rows of floats in one uploaded instance record: the four columns of the
/// model matrix, then the three columns of the normal matrix.
pub const RAW_INSTANCE_ROWS: usize = 7;

/// Degrees of the turn about its own position vector that an instance away
/// from the origin starts with.
pub const SEED_ANGLE: u16 = 45;

/// A point of the ground plane, in half world units (the height is zero).
#[derive(Clone, Copy, Debug, PartialEq, Eq, Structural)]
pub struct Position {
    pub half_x: i64,
    pub half_z: i64,
}

/// A direction with integer components; it stands for the unit vector along
/// it, so the zero vector is no axis.
#[derive(Clone, Copy, Debug, PartialEq, Eq, Structural)]
pub struct Axis {
    pub x: i64,
    pub y: i64,
    pub z: i64,
}

/// The orientation "turn by `angle` about `axis`, then turn by `yaw` about
/// the world's vertical axis".
#[derive(Clone, Copy, Debug, PartialEq, Eq, Structural)]
pub struct Rotation {
    pub yaw: Degrees,
    pub axis: Axis,
    pub angle: Degrees,
}

/// One placed copy of the model.
#[derive(Clone, Copy, Debug, PartialEq, Eq, Structural)]
pub struct Instance {
    pub position: Position,
    pub rotation: Rotation,
}

/// One row of floats in an uploaded instance record: a column of one of its
/// two matrices.
#[derive(Clone, Copy, Debug, PartialEq, Eq, Structural)]
pub struct RawAttribute {
    /// Where the row starts, in bytes from the start of the record.
    pub offset: u64,
    /// How many 32-bit floats the row holds.
    pub floats: u32,
}

/// Row `row` of an instance record: rows 0 to 3 are the columns of the model
/// matrix, four floats each; rows 4 to 6 are the columns of the normal
/// matrix, three floats each. The rows follow one another without gaps.
pub open spec fn raw_attribute(row: int) -> RawAttribute {
    if row < 4 {
        RawAttribute { offset: (16 * row) as u64, floats: 4 }
    } else {
        RawAttribute { offset: (64 + 12 * (row - 4)) as u64, floats: 3 }
    }
}

/// The rows of an instance record, in order.
pub open spec fn raw_attributes() -> Seq<RawAttribute> {
    Seq::new(RAW_INSTANCE_ROWS as nat, |row: int| raw_attribute(row))
}

/// The rows of an instance record, in order.
pub fn raw_layout() -> (rows: Vec<RawAttribute>)
    ensures
        rows@ == raw_attributes(),
{
    let mut rows: Vec<RawAttribute> = Vec::new();
    let mut row: usize = 0;
    while row < RAW_INSTANCE_ROWS
        invariant
            row <= RAW_INSTANCE_ROWS,
            rows@.len() == row,
            forall|i: int| 0 <= i < row ==> #[trigger] rows@[i] == raw_attribute(i),
        decreases RAW_INSTANCE_ROWS - row,
    {
        let attribute = if row < 4 {
            RawAttribute { offset: 16 * (row as u64), floats: 4 }
        } else {
            RawAttribute { offset: 64 + 12 * ((row - 4) as u64), floats: 3 }
        };
        rows.push(attribute);
        row = row + 1;
    }
    rows
}

/// The rows of an instance record fill it exactly: the first starts at the
/// record's start, each next one starts where the one before ends, and the
/// last ends where the record ends.
pub proof fn lemma_raw_layout_is_packed()
    ensures
        raw_attributes().len() == RAW_INSTANCE_ROWS,
        raw_attributes()[0].offset == 0,
        forall|row: int|
            0 <= row < RAW_INSTANCE_ROWS - 1 ==> (#[trigger] raw_attributes()[row + 1]).offset
                == raw_attributes()[row].offset + 4 * raw_attributes()[row].floats,
        raw_attributes()[RAW_INSTANCE_ROWS - 1].offset + 4 * raw_attributes()[RAW_INSTANCE_ROWS
            - 1].floats == RAW_INSTANCE_BYTES,
{
}

impl Position {
    /// The point is the origin.
    pub open spec fn spec_is_zero(self) -> bool {
        self.half_x == 0 && self.half_z == 0
    }

    /// Whether the point is the origin.
    pub fn is_zero(&self) -> (zero: bool)
        ensures
            zero == self.spec_is_zero(),
    {
        self.half_x == 0 && self.half_z == 0
    }
}

impl Axis {
    /// The axis has a direction.
    pub open spec fn nonzero(self) -> bool {
        self.x != 0 || self.y != 0 || self.z != 0
    }
}

impl Rotation {
    /// The axis has a direction and both angles are reduced.
    pub open spec fn wf(self) -> bool {
        &&& self.axis.nonzero()
        &&& self.yaw.wf()
        &&& self.angle.wf()
    }

    /// The orientation that leaves the model as it is: no turn, written about
    /// the depth axis.
    pub open spec fn identity() -> Rotation {
        Rotation {
            yaw: Degrees::spec_new(0),
            axis: Axis { x: 0, y: 0, z: 1 },
            angle: Degrees::spec_new(0),
        }
    }

    /// The orientation an instance at `position` starts with: the identity at
    /// the origin, where the position gives no axis, and elsewhere a turn of
    /// `SEED_ANGLE` degrees about the position vector.
    pub open spec fn seed(position: Position) -> Rotation {
        if position.spec_is_zero() {
            Rotation::identity()
        } else {
            Rotation {
                yaw: Degrees::spec_new(0),
                axis: Axis { x: position.half_x, y: 0, z: position.half_z },
                angle: Degrees::spec_new(SEED_ANGLE as int),
            }
        }
    }

    /// `increment` composed on the left of `self`: the vertical turn is
    /// applied after everything `self` already does.
    pub open spec fn turned(self, increment: Degrees) -> Rotation {
        Rotation { yaw: self.yaw.spec_plus(increment), axis: self.axis, angle: self.angle }
    }

    /// `increment` composed on the left `count` times over.
    pub open spec fn turned_times(self, increment: Degrees, count: nat) -> Rotation
        decreases count,
    {
        if count == 0 {
            self
        } else {
            self.turned_times(increment, (count - 1) as nat).turned(increment)
        }
    }

    /// The orientation an instance at `position` starts with.
    pub fn seed_at(position: Position) -> (r: Rotation)
        ensures
            r == Rotation::seed(position),
            r.wf(),
    {
        if position.is_zero() {
            Rotation { yaw: Degrees::zero(), axis: Axis { x: 0, y: 0, z: 1 }, angle: Degrees::zero() }
        } else {
            Rotation {
                yaw: Degrees::zero(),
                axis: Axis { x: position.half_x, y: 0, z: position.half_z },
                angle: Degrees::new(SEED_ANGLE as u32),
            }
        }
    }

    /// Composes a vertical turn by `increment` on the left.
    pub fn turn(self, increment: Degrees) -> (r: Rotation)
        ensures
            r == self.turned(increment),
            self.wf() ==> r.wf(),
    {
        Rotation { yaw: self.yaw.plus(increment), axis: self.axis, angle: self.angle }
    }
}

impl Instance {
    /// The instance holds a well-formed orientation.
    pub open spec fn wf(self) -> bool {
        self.rotation.wf()
    }

    /// The instance after a vertical turn by `increment` composed on the left
    /// of its orientation; the position stays.
    pub open spec fn turned(self, increment: Degrees) -> Instance {
        Instance { position: self.position, rotation: self.rotation.turned(increment) }
    }
}

/// Twice the world coordinate of grid index `index` along one side of a grid
/// of `grid_size` cells that is `spacing` world units apart and centred on
/// the origin.
pub open spec fn grid_half_offset(grid_size: int, spacing: int, index: int) -> int {
    spacing * (2 * index - grid_size)
}

/// The position of cell `cell` of the grid, cells counted row by row.
pub open spec fn grid_position(grid_size: int, spacing: int, cell: int) -> Position {
    Position {
        half_x: grid_half_offset(grid_size, spacing, cell % grid_size) as i64,
        half_z: grid_half_offset(grid_size, spacing, cell / grid_size) as i64,
    }
}

/// The instance that starts in cell `cell` of the grid.
pub open spec fn grid_instance(grid_size: int, spacing: int, cell: int) -> Instance {
    let position = grid_position(grid_size, spacing, cell);
    Instance { position, rotation: Rotation::seed(position) }
}

/// The whole grid, row by row.
pub open spec fn grid(grid_size: int, spacing: int) -> Seq<Instance> {
    Seq::new((grid_size * grid_size) as nat, |cell: int| grid_instance(grid_size, spacing, cell))
}

/// Each instance of `before` with `increment` composed on the left of its
/// orientation.
pub open spec fn all_turned(before: Seq<Instance>, increment: Degrees) -> Seq<Instance> {
    Seq::new(before.len(), |i: int| before[i].turned(increment))
}

/// The instances after `count` rounds of `all_turned`.
pub open spec fn all_turned_times(before: Seq<Instance>, increment: Degrees, count: nat) -> Seq<
    Instance,
>
    decreases count,
{
    if count == 0 {
        before
    } else {
        all_turned(all_turned_times(before, increment, (count - 1) as nat), increment)
    }
}

/// The instances of the scene, in grid order.
pub struct InstanceSet {
    instances: Vec<Instance>,
}

impl View for InstanceSet {
    type V = Seq<Instance>;

    closed spec fn view(&self) -> Seq<Instance> {
        self.instances@
    }
}

impl InstanceSet {
    /// There are at most `u32::MAX` instances.
    #[verifier::type_invariant]
    spec fn fits_instance_range(self) -> bool {
        self.instances.len() <= u32::MAX
    }

    /// Every instance holds a well-formed orientation.
    pub open spec fn wf(&self) -> bool {
        forall|i: int| 0 <= i < self@.len() ==> (#[trigger] self@[i]).wf()
    }

    /// Lays out `grid_size * grid_size` instances on a square grid centred on
    /// the origin, `spacing` world units apart, row by row. The instance at
    /// the origin, if there is one, starts with the identity orientation;
    /// every other one starts turned about its own position vector.
    pub fn generate(grid_size: u32, spacing: u32) -> (set: InstanceSet)
        requires
            grid_size <= MAX_GRID_SIZE,
        ensures
            set@ == grid(grid_size as int, spacing as int),
            set@.len() == grid_size * grid_size,
            set.wf(),
    {
        let mut instances: Vec<Instance> = Vec::new();
        let mut row: u32 = 0;
        while row < grid_size
            invariant
                grid_size <= MAX_GRID_SIZE,
                row <= grid_size,
                instances@.len() == row * grid_size,
                forall|k: int|
                    0 <= k < instances@.len() ==> #[trigger] instances@[k] == grid_instance(
                        grid_size as int,
                        spacing as int,
                        k,
                    ),
                forall|k: int| 0 <= k < instances@.len() ==> (#[trigger] instances@[k]).wf(),
            decreases grid_size - row,
        {
            let half_z: i64 = Self::half_offset(grid_size, spacing, row);
            let mut column: u32 = 0;
            while column < grid_size
                invariant
                    grid_size <= MAX_GRID_SIZE,
                    row < grid_size,
                    column <= grid_size,
                    half_z == grid_half_offset(grid_size as int, spacing as int, row as int),
                    instances@.len() == row * grid_size + column,
                    forall|k: int|
                        0 <= k < instances@.len() ==> #[trigger] instances@[k] == grid_instance(
                            grid_size as int,
                            spacing as int,
                            k,
                        ),
                    forall|k: int| 0 <= k < instances@.len() ==> (#[trigger] instances@[k]).wf(),
                decreases grid_size - column,
            {
                let half_x: i64 = Self::half_offset(grid_size, spacing, column);
                let position = Position { half_x, half_z };
                let rotation = Rotation::seed_at(position);
                proof {
                    let cell = row * grid_size + column;
                    lemma_fundamental_div_mod_converse(
                        cell,
                        grid_size as int,
                        row as int,
                        column as int,
                    );
                }
                instances.push(Instance { position, rotation });
                column = column + 1;
            }
            proof {
                assert(row * grid_size + grid_size == (row + 1) * grid_size) by (nonlinear_arith);
            }
            row = row + 1;
        }
        proof {
            assert(grid_size * grid_size <= u32::MAX) by (nonlinear_arith)
                requires
                    grid_size <= 65535,
            ;
        }
        InstanceSet { instances }
    }

    /// Twice the world coordinate of grid index `index` along one side.
    fn half_offset(grid_size: u32, spacing: u32, index: u32) -> (half: i64)
        requires
            grid_size <= MAX_GRID_SIZE,
            index < grid_size,
        ensures
            half == grid_half_offset(grid_size as int, spacing as int, index as int),
    {
        let steps: i64 = 2 * (index as i64) - (grid_size as i64);
        proof {
            assert(-0x1_0000_0000_0000 < spacing * steps < 0x1_0000_0000_0000) by (nonlinear_arith)
                requires
                    0 <= spacing <= 0xffff_ffff,
                    -65535 <= steps <= 65535,
            ;
        }
        (spacing as i64) * steps
    }

    /// The number of instances.
    pub fn len(&self) -> (n: u32)
        ensures
            n == self@.len(),
    {
        proof {
            use_type_invariant(self);
        }
        self.instances.len() as u32
    }

    /// The instance in cell `index`, if the grid has such a cell.
    pub fn get(&self, index: u32) -> (found: Option<Instance>)
        ensures
            found == if index < self@.len() {
                Some(self@[index as int])
            } else {
                None::<Instance>
            },
    {
        if (index as usize) < self.instances.len() {
            Some(self.instances[index as usize])
        } else {
            None
        }
    }

    /// Bytes that the instance buffer holds: one record per instance.
    pub fn byte_len(&self) -> (bytes: u64)
        ensures
            bytes == self@.len() * RAW_INSTANCE_BYTES,
    {
        proof {
            use_type_invariant(self);
        }
        (self.instances.len() as u64) * RAW_INSTANCE_BYTES
    }

    /// Composes a vertical turn by `increment` on the left of every
    /// instance's orientation. Positions, and the number of instances, stay.
    pub fn tick(&mut self, increment: Degrees)
        ensures
            final(self)@ == all_turned(old(self)@, increment),
            old(self).wf() ==> final(self).wf(),
            old(self).wf() && increment == Degrees::spec_new(0) ==> final(self)@ == old(self)@,
    {
        proof {
            use_type_invariant(&*self);
        }
        let count: usize = self.instances.len();
        let mut i: usize = 0;
        while i < count
            invariant
                i <= count,
                count == old(self).instances@.len(),
                self.instances@.len() == count,
                count <= u32::MAX,
                forall|j: int|
                    0 <= j < i ==> #[trigger] self.instances@[j] == old(self).instances@[j].turned(
                        increment,
                    ),
                forall|j: int|
                    i <= j < count ==> #[trigger] self.instances@[j] == old(self).instances@[j],
            decreases count - i,
        {
            let before: Instance = self.instances[i];
            let after = Instance {
                position: before.position,
                rotation: before.rotation.turn(increment),
            };
            self.instances[i] = after;
            i = i + 1;
        }
        proof {
            assert forall|k: int| 0 <= k < self@.len() && old(self).wf() implies (
            #[trigger] self@[k]).wf() by {
                lemma_turned_wf(old(self)@[k].rotation, increment);
            }
            if old(self).wf() && increment == Degrees::spec_new(0) {
                lemma_zero_turn(old(self)@);
            }
        }
    }
}

/// A vertical turn keeps a well-formed orientation well-formed.
pub proof fn lemma_turned_wf(rotation: Rotation, increment: Degrees)
    requires
        rotation.wf(),
    ensures
        rotation.turned(increment).wf(),
{
}

/// A grid of a valid side holds exactly `side * side` instances, and each of
/// them, the one at the centre included, has an orientation with a proper
/// axis.
pub proof fn lemma_grid_orientations(grid_size: int, spacing: int, cell: int)
    requires
        0 <= grid_size <= MAX_GRID_SIZE,
        0 <= cell < grid_size * grid_size,
    ensures
        grid(grid_size, spacing).len() == grid_size * grid_size,
        grid(grid_size, spacing)[cell].wf(),
        grid(grid_size, spacing)[cell].position.spec_is_zero() ==> grid(grid_size, spacing)[cell].rotation
            == Rotation::identity(),
{
}

/// Composing the zero turn leaves every well-formed orientation as it is.
pub proof fn lemma_zero_turn(before: Seq<Instance>)
    requires
        forall|i: int| 0 <= i < before.len() ==> (#[trigger] before[i]).wf(),
    ensures
        all_turned(before, Degrees::spec_new(0)) == before,
{
    assert forall|i: int| 0 <= i < before.len() implies before[i].turned(Degrees::spec_new(0))
        == before[i] by {
        lemma_plus_zero(before[i].rotation.yaw);
    }
}

/// After `count` turns by `increment`, an orientation has the same axis and
/// angle, and a yaw of `count * increment` degrees more, modulo a full turn.
pub proof fn lemma_turned_times(rotation: Rotation, increment: Degrees, count: nat)
    requires
        rotation.wf(),
    ensures
        rotation.turned_times(increment, count) == (Rotation {
            yaw: Degrees::spec_new(rotation.yaw.value + count * increment.value),
            axis: rotation.axis,
            angle: rotation.angle,
        }),
    decreases count,
{
    lemma_plus_times(rotation.yaw, increment, count);
    if count > 0 {
        let before = (count - 1) as nat;
        lemma_turned_times(rotation, increment, before);
        lemma_plus_times(rotation.yaw, increment, before);
    }
}

/// After `count` rounds of turning by `increment`, every instance stands
/// where it stood, with the axis and angle it had, and a yaw of
/// `count * increment` degrees more, modulo a full turn.
pub proof fn lemma_all_turned_times(before: Seq<Instance>, increment: Degrees, count: nat)
    requires
        forall|i: int| 0 <= i < before.len() ==> (#[trigger] before[i]).wf(),
    ensures
        all_turned_times(before, increment, count).len() == before.len(),
        forall|i: int|
            0 <= i < before.len() ==> #[trigger] all_turned_times(before, increment, count)[i] == (
            Instance {
                position: before[i].position,
                rotation: Rotation {
                    yaw: Degrees::spec_new(before[i].rotation.yaw.value + count * increment.value),
                    axis: before[i].rotation.axis,
                    angle: before[i].rotation.angle,
                },
            }),
    decreases count,
{
    if count > 0 {
        lemma_all_turned_times(before, increment, (count - 1) as nat);
    }
    assert forall|i: int| 0 <= i < before.len() implies #[trigger] all_turned_times(
        before,
        increment,
        count,
    )[i] == (Instance {
        position: before[i].position,
        rotation: Rotation {
            yaw: Degrees::spec_new(before[i].rotation.yaw.value + count * increment.value),
            axis: before[i].rotation.axis,
            angle: before[i].rotation.angle,
        },
    }) by {
        if count > 0 {
            lemma_turned_times(before[i].rotation, increment, (count - 1) as nat);
        }
        lemma_turned_times(before[i].rotation, increment, count);
    }
}

} // verus!
