//! The layout of a workshop: a brick hall on four wooden supports, under a
//! pyramid roof, with a chimney over a bed of embers and crafting stations
//! along the four axes.
//!
//! The layout is computed as a list of paint operations on whole-block
//! coordinates. Painting them into terrain is left to the caller.

use vstd::prelude::*;

verus! {

/// A column of the world.
#[derive(Clone, Copy, Debug, PartialEq, Eq, Structural)]
pub struct Point2 {
    pub x: i32,
    pub y: i32,
}

/// A block of the world.
#[derive(Clone, Copy, Debug, PartialEq, Eq, Structural)]
pub struct Point3 {
    pub x: i32,
    pub y: i32,
    pub z: i32,
}

/// A colour.
#[derive(Clone, Copy, Debug, PartialEq, Eq, Structural)]
pub struct Rgb {
    pub r: u8,
    pub g: u8,
    pub b: u8,
}

/// What a block is made of.
#[derive(Clone, Copy, Debug, PartialEq, Eq, Structural)]
pub enum BlockKind {
    Rock,
    Wood,
}

/// What stands on a block.
#[derive(Clone, Copy, Debug, PartialEq, Eq, Structural)]
pub enum SpriteKind {
    Ember,
    CraftingBench,
    Forge,
    SpinningWheel,
    TanningRack,
    CookingPot,
    Cauldron,
    Loom,
    Anvil,
    DismantlingBench,
}

/// How a shape is filled.
#[derive(Clone, Copy, Debug, PartialEq, Eq, Structural)]
pub enum Fill {
    /// Blocks of one kind whose colour varies around `colour` by up to
    /// `range`
    Brick { kind: BlockKind, colour: Rgb, range: u8 },
    /// Blocks of one kind and one colour
    Block { kind: BlockKind, colour: Rgb },
}

/// A shape made of blocks.
#[derive(Clone, Copy, Debug, PartialEq, Eq, Structural)]
pub enum Primitive {
    /// The box from `min` up to, not including, `max`
    Aabb { min: Point3, max: Point3 },
    /// The line from `a` to `b`, `radius` blocks thick
    Line { a: Point3, b: Point3, radius: u32 },
    /// The pyramid that fills the box from `min` to `max`
    Pyramid { min: Point3, max: Point3 },
}

/// One operation of a painter.
#[derive(Clone, Copy, Debug, PartialEq, Eq, Structural)]
pub enum Paint {
    /// Fill a shape
    Fill { shape: Primitive, fill: Fill },
    /// Empty a shape
    Clear { shape: Primitive },
    /// Put a sprite on a block
    Sprite { pos: Point3, kind: SpriteKind },
}

/// `n / 2`, rounded toward zero.
pub open spec fn half_toward_zero(n: int) -> int {
    if n >= 0 {
        n / 2
    } else {
        -((-n) / 2)
    }
}

/// The point with the given coordinates.
pub open spec fn point3(x: int, y: int, z: int) -> Point3 {
    Point3 { x: x as i32, y: y as i32, z: z as i32 }
}

/// The four axis directions, in the order in which stations are laid out.
pub open spec fn spec_cardinal(index: int) -> Point2 {
    if index == 0 {
        Point2 { x: 0, y: 1 }
    } else if index == 1 {
        Point2 { x: 1, y: 0 }
    } else if index == 2 {
        Point2 { x: 0, y: -1i32 }
    } else {
        Point2 { x: -1i32, y: 0 }
    }
}

/// The crafting stations a workshop can hold.
pub open spec fn stations() -> Seq<SpriteKind> {
    seq![
        SpriteKind::CraftingBench,
        SpriteKind::Forge,
        SpriteKind::SpinningWheel,
        SpriteKind::TanningRack,
        SpriteKind::CookingPot,
        SpriteKind::Cauldron,
        SpriteKind::Loom,
        SpriteKind::Anvil,
        SpriteKind::DismantlingBench,
    ]
}

/// The station that a sample of the placement noise selects.
pub open spec fn spec_station_for(sample: u32) -> SpriteKind {
    stations()[sample as int % 9]
}

/// The brick of the walls and the chimney.
pub open spec fn wall_brick() -> Fill {
    Fill::Brick { kind: BlockKind::Rock, colour: Rgb { r: 80, g: 75, b: 85 }, range: 24 }
}

/// The brick of the roof.
pub open spec fn roof_brick() -> Fill {
    Fill::Brick { kind: BlockKind::Rock, colour: Rgb { r: 45, g: 28, b: 21 }, range: 24 }
}

/// The wood of the supports.
pub open spec fn support_wood() -> Fill {
    Fill::Block { kind: BlockKind::Wood, colour: Rgb { r: 55, g: 25, b: 8 } }
}

/// `vek::Aabr::center` on `i32` corners: each coordinate of the centre is
/// the sum of the two corners' coordinates, halved toward zero. The sum is
/// formed in `i32`, so corners whose sum leaves that range are excluded.
#[verifier::external_body]
fn center_of(min: Point2, max: Point2) -> (center: Point2)
    requires
        i32::MIN <= min.x + max.x <= i32::MAX,
        i32::MIN <= min.y + max.y <= i32::MAX,
    ensures
        center.x == half_toward_zero(min.x + max.x),
        center.y == half_toward_zero(min.y + max.y),
{
    let bounds = vek::Aabr { min: vek::Vec2::new(min.x, min.y), max: vek::Vec2::new(max.x, max.y) };
    let center = bounds.center();
    Point2 { x: center.x, y: center.y }
}

/// A station stands at most 7 blocks from the centre along either axis.
pub proof fn station_offset_is_small(index: int)
    requires
        0 <= index < 12,
    ensures
        -7 <= spec_cardinal(index / 3).x * (3 + (index % 3) * 2) <= 7,
        -7 <= spec_cardinal(index / 3).y * (3 + (index % 3) * 2) <= 7,
{
    let dx = spec_cardinal(index / 3).x as int;
    let dy = spec_cardinal(index / 3).y as int;
    let reach = 3 + (index % 3) * 2;
    assert(-7 <= dx * reach <= 7 && -7 <= dy * reach <= 7) by (nonlinear_arith)
        requires
            -1 <= dx <= 1,
            -1 <= dy <= 1,
            3 <= reach <= 7,
    ;
}

/// How far the `index`-th station stands from the centre: along the
/// direction of its axis by 3, 5 or 7 blocks, and not at all across it.
pub proof fn station_offset_follows_its_axis(index: int)
    requires
        0 <= index < 12,
    ensures
        index / 3 == 0 ==> spec_cardinal(index / 3).x * (3 + (index % 3) * 2) == 0
            && spec_cardinal(index / 3).y * (3 + (index % 3) * 2) == 3 + (index % 3) * 2,
        index / 3 == 1 ==> spec_cardinal(index / 3).x * (3 + (index % 3) * 2) == 3 + (index % 3)
            * 2 && spec_cardinal(index / 3).y * (3 + (index % 3) * 2) == 0,
        index / 3 == 2 ==> spec_cardinal(index / 3).x * (3 + (index % 3) * 2) == 0
            && spec_cardinal(index / 3).y * (3 + (index % 3) * 2) == -(3 + (index % 3) * 2),
        index / 3 == 3 ==> spec_cardinal(index / 3).x * (3 + (index % 3) * 2) == -(3 + (index
            % 3) * 2) && spec_cardinal(index / 3).y * (3 + (index % 3) * 2) == 0,
{
    let dx = spec_cardinal(index / 3).x as int;
    let dy = spec_cardinal(index / 3).y as int;
    let reach = 3 + (index % 3) * 2;
    assert(dx == 0 ==> dx * reach == 0) by (nonlinear_arith);
    assert(dy == 0 ==> dy * reach == 0) by (nonlinear_arith);
    assert(dx == 1 ==> dx * reach == reach) by (nonlinear_arith);
    assert(dy == 1 ==> dy * reach == reach) by (nonlinear_arith);
    assert(dx == -1 ==> dx * reach == -reach) by (nonlinear_arith);
    assert(dy == -1 ==> dy * reach == -reach) by (nonlinear_arith);
}

/// No two stations share a block, and every station keeps clear of the
/// square of embers around the centre.
pub proof fn stations_stand_apart(workshop: Workshop, i: int, j: int)
    requires
        workshop.paintable(),
        0 <= i < 12,
        0 <= j < 12,
    ensures
        i != j ==> workshop.station_position(i) != workshop.station_position(j),
        workshop.station_position(i).x - workshop.center_x() >= 3 || workshop.center_x()
            - workshop.station_position(i).x >= 3 || workshop.station_position(i).y
            - workshop.center_y() >= 3 || workshop.center_y() - workshop.station_position(i).y
            >= 3,
{
    station_offset_follows_its_axis(i);
    station_offset_follows_its_axis(j);
    station_offset_is_small(i);
    station_offset_is_small(j);
}

/// The `index`-th of the four axis directions.
pub fn cardinal(index: usize) -> (dir: Point2)
    requires
        index < 4,
    ensures
        dir == spec_cardinal(index as int),
{
    if index == 0 {
        Point2 { x: 0, y: 1 }
    } else if index == 1 {
        Point2 { x: 1, y: 0 }
    } else if index == 2 {
        Point2 { x: 0, y: -1 }
    } else {
        Point2 { x: -1, y: 0 }
    }
}

/// The station that a sample of the placement noise selects: the sample
/// counts through the nine stations, round and round.
pub fn station_for(sample: u32) -> (kind: SpriteKind)
    ensures
        kind == spec_station_for(sample),
{
    let stations = vec![
        SpriteKind::CraftingBench,
        SpriteKind::Forge,
        SpriteKind::SpinningWheel,
        SpriteKind::TanningRack,
        SpriteKind::CookingPot,
        SpriteKind::Cauldron,
        SpriteKind::Loom,
        SpriteKind::Anvil,
        SpriteKind::DismantlingBench,
    ];
    assert(stations@ =~= self::stations());
    stations[sample as usize % stations.len()]
}

/// A workshop on its plot.
#[derive(Clone, Copy, Debug, PartialEq, Eq)]
pub struct Workshop {
    /// Lowest corner of the plot
    pub min: Point2,
    /// Highest corner of the plot
    pub max: Point2,
    /// Approximate altitude of the door tile
    pub alt: i32,
}

impl Workshop {
    /// The floor of the hall.
    pub open spec fn base(&self) -> int {
        self.alt + 1
    }

    /// The foot of the roof.
    pub open spec fn roof(&self) -> int {
        self.base() + 5
    }

    /// The tip of the roof.
    pub open spec fn roof_top(&self) -> int {
        self.roof() + 5
    }

    /// The top of the chimney's wall.
    pub open spec fn chimney(&self) -> int {
        self.roof_top() + 2
    }

    /// The column in the middle of the plot.
    pub open spec fn center_x(&self) -> int {
        half_toward_zero(self.min.x + self.max.x)
    }

    /// The row in the middle of the plot.
    pub open spec fn center_y(&self) -> int {
        half_toward_zero(self.min.y + self.max.y)
    }

    /// Every coordinate of the layout can be written as an `i32`: the
    /// heights from 16 below the floor to the chimney's flue, the corners
    /// moved inward by up to 3, and the centre with 7 blocks around it.
    pub open spec fn paintable(&self) -> bool {
        &&& i32::MIN + 15 <= self.alt <= i32::MAX - 15
        &&& self.min.x <= i32::MAX - 3
        &&& self.min.y <= i32::MAX - 3
        &&& self.max.x >= i32::MIN + 3
        &&& self.max.y >= i32::MIN + 3
        &&& i32::MIN <= self.min.x + self.max.x <= i32::MAX
        &&& i32::MIN <= self.min.y + self.max.y <= i32::MAX
        &&& i32::MIN + 7 <= self.center_x() <= i32::MAX - 7
        &&& i32::MIN + 7 <= self.center_y() <= i32::MAX - 7
    }

    /// The hall itself, bottom to top: the brick block, its hollow, the four
    /// supports, the roof, the chimney and its flue.
    pub open spec fn structure(&self) -> Seq<Paint> {
        let min = self.min;
        let max = self.max;
        let base = self.base();
        let roof = self.roof();
        let roof_top = self.roof_top();
        let chimney = self.chimney();
        let cx = self.center_x();
        let cy = self.center_y();
        seq![
            Paint::Fill {
                shape: Primitive::Aabb {
                    min: point3(min.x + 1, min.y + 1, base - 16),
                    max: point3(max.x as int, max.y as int, base),
                },
                fill: wall_brick(),
            },
            Paint::Clear {
                shape: Primitive::Aabb {
                    min: point3(min.x + 2, min.y + 2, base),
                    max: point3(max.x - 1, max.y - 1, roof),
                },
            },
            Paint::Fill {
                shape: Primitive::Line {
                    a: point3(min.x + 3, min.y + 3, base),
                    b: point3(min.x + 3, min.y + 3, roof),
                    radius: 1,
                },
                fill: support_wood(),
            },
            Paint::Fill {
                shape: Primitive::Line {
                    a: point3(max.x - 3, min.y + 3, base),
                    b: point3(max.x - 3, min.y + 3, roof),
                    radius: 1,
                },
                fill: support_wood(),
            },
            Paint::Fill {
                shape: Primitive::Line {
                    a: point3(min.x + 3, max.y - 3, base),
                    b: point3(min.x + 3, max.y - 3, roof),
                    radius: 1,
                },
                fill: support_wood(),
            },
            Paint::Fill {
                shape: Primitive::Line {
                    a: point3(max.x - 3, max.y - 3, base),
                    b: point3(max.x - 3, max.y - 3, roof),
                    radius: 1,
                },
                fill: support_wood(),
            },
            Paint::Fill {
                shape: Primitive::Pyramid {
                    min: point3(min.x + 2, min.y + 2, roof),
                    max: point3(max.x - 1, max.y - 1, roof_top),
                },
                fill: roof_brick(),
            },
            Paint::Fill {
                shape: Primitive::Line {
                    a: point3(cx, cy, base + 4),
                    b: point3(cx, cy, chimney),
                    radius: 3,
                },
                fill: wall_brick(),
            },
            Paint::Clear {
                shape: Primitive::Line {
                    a: point3(cx, cy, base),
                    b: point3(cx, cy, chimney + 2),
                    radius: 2,
                },
            },
        ]
    }

    /// Where the `index`-th ember lies: the nine embers fill the square of
    /// side 3 around the centre, one block below the floor, column by column.
    pub open spec fn ember_position(&self, index: int) -> Point3 {
        point3(self.center_x() + index / 3 - 1, self.center_y() + index % 3 - 1, self.base() - 1)
    }

    /// The bed of embers under the chimney.
    pub open spec fn embers(&self) -> Seq<Paint> {
        Seq::new(
            9,
            |index: int| Paint::Sprite { pos: self.ember_position(index), kind: SpriteKind::Ember },
        )
    }

    /// Where the `index`-th station stands: three stations along each of the
    /// four axis directions, 3, 5 and 7 blocks from the centre, on the floor.
    pub open spec fn station_position(&self, index: int) -> Point3 {
        let dir = spec_cardinal(index / 3);
        let reach = 3 + (index % 3) * 2;
        point3(self.center_x() + dir.x * reach, self.center_y() + dir.y * reach, self.base())
    }

    /// The positions of the twelve stations.
    pub open spec fn spec_station_positions(&self) -> Seq<Point3> {
        Seq::new(12, |index: int| self.station_position(index))
    }

    /// The twelve stations, each chosen by its sample of the placement noise.
    pub open spec fn station_sprites(&self, samples: Seq<u32>) -> Seq<Paint> {
        Seq::new(
            12,
            |index: int|
                Paint::Sprite {
                    pos: self.station_position(index),
                    kind: spec_station_for(samples[index]),
                },
        )
    }

    /// Everything that is painted, in the order of painting.
    pub open spec fn plan(&self, samples: Seq<u32>) -> Seq<Paint> {
        self.structure() + self.embers() + self.station_sprites(samples)
    }

    /// A workshop on the plot between the two corners, with its door at
    /// altitude `alt`.
    pub fn generate(min: Point2, max: Point2, alt: i32) -> (workshop: Workshop)
        ensures
            workshop.min == min,
            workshop.max == max,
            workshop.alt == alt,
    {
        Workshop { min, max, alt }
    }

    /// Whether every coordinate of the layout can be written as an `i32`.
    pub fn is_paintable(&self) -> (paintable: bool)
        ensures
            paintable == self.paintable(),
    {
        let low: i64 = -0x8000_0000;
        let high: i64 = 0x7FFF_FFFF;
        let alt = self.alt as i64;
        let sum_x = self.min.x as i64 + self.max.x as i64;
        let sum_y = self.min.y as i64 + self.max.y as i64;
        if !(low + 15 <= alt && alt <= high - 15) {
            return false;
        }
        if !(self.min.x as i64 <= high - 3 && self.min.y as i64 <= high - 3) {
            return false;
        }
        if !(self.max.x as i64 >= low + 3 && self.max.y as i64 >= low + 3) {
            return false;
        }
        if !(low <= sum_x && sum_x <= high && low <= sum_y && sum_y <= high) {
            return false;
        }
        let center = center_of(self.min, self.max);
        low + 7 <= center.x as i64 && center.x as i64 <= high - 7 && low + 7 <= center.y as i64
            && center.y as i64 <= high - 7
    }

    /// The column in the middle of the plot.
    pub fn center(&self) -> (center: Point2)
        requires
            self.paintable(),
        ensures
            center.x == self.center_x(),
            center.y == self.center_y(),
    {
        center_of(self.min, self.max)
    }

    /// The positions of the twelve stations, in the order in which `render`
    /// expects their samples.
    pub fn station_positions(&self) -> (positions: Vec<Point3>)
        requires
            self.paintable(),
        ensures
            positions@ == self.spec_station_positions(),
            forall|index: int|
                0 <= index < 12 ==> {
                    &&& (#[trigger] positions@[index]).x == self.center_x() + spec_cardinal(
                        index / 3,
                    ).x * (3 + (index % 3) * 2)
                    &&& positions@[index].y == self.center_y() + spec_cardinal(index / 3).y * (3
                        + (index % 3) * 2)
                    &&& positions@[index].z == self.alt + 1
                },
    {
        let center = self.center();
        let base = self.alt + 1;
        let mut positions: Vec<Point3> = Vec::new();
        let mut k: usize = 0;
        while k < 4
            invariant
                k <= 4,
                self.paintable(),
                center.x == self.center_x(),
                center.y == self.center_y(),
                base == self.base(),
                positions@ == self.spec_station_positions().subrange(0, 3 * k),
            decreases 4 - k,
        {
            let dir = cardinal(k);
            let mut d: i32 = 0;
            while d < 3
                invariant
                    0 <= d <= 3,
                    k < 4,
                    dir == spec_cardinal(k as int),
                    self.paintable(),
                    center.x == self.center_x(),
                    center.y == self.center_y(),
                    base == self.base(),
                    positions@ == self.spec_station_positions().subrange(0, 3 * k + d),
                decreases 3 - d,
            {
                let reach: i32 = 3 + d * 2;
                assert(-7 <= dir.x * reach <= 7 && -7 <= dir.y * reach <= 7) by (nonlinear_arith)
                    requires
                        -1 <= dir.x <= 1,
                        -1 <= dir.y <= 1,
                        3 <= reach <= 7,
                ;
                let position = Point3 {
                    x: center.x + dir.x * reach,
                    y: center.y + dir.y * reach,
                    z: base,
                };
                proof {
                    let index = 3 * k + d;
                    assert(index / 3 == k && index % 3 == d);
                    assert(position == self.station_position(index));
                    assert(self.spec_station_positions().subrange(0, index + 1)
                        =~= self.spec_station_positions().subrange(0, index).push(position));
                }
                positions.push(position);
                d = d + 1;
            }
            k = k + 1;
        }
        assert(self.spec_station_positions().subrange(0, 12) =~= self.spec_station_positions());
        assert forall|index: int| 0 <= index < 12 implies {
            &&& (#[trigger] positions@[index]).x == self.center_x() + spec_cardinal(index / 3).x
                * (3 + (index % 3) * 2)
            &&& positions@[index].y == self.center_y() + spec_cardinal(index / 3).y * (3 + (index
                % 3) * 2)
            &&& positions@[index].z == self.alt + 1
        } by {
            station_offset_is_small(index);
            assert(positions@[index] == self.station_position(index));
        }
        positions
    }

    /// The whole layout as a list of paint operations, in the order of
    /// painting: the hall, the embers, the stations.
    ///
    /// `samples` holds one sample of the placement noise for each station,
    /// taken at the positions that `station_positions` gives, in that order.
    pub fn render(&self, samples: &Vec<u32>) -> (plan: Vec<Paint>)
        requires
            self.paintable(),
            samples@.len() == 12,
        ensures
            plan@ == self.plan(samples@),
            plan@.len() == 30,
    {
        let brick = Fill::Brick {
            kind: BlockKind::Rock,
            colour: Rgb { r: 80, g: 75, b: 85 },
            range: 24,
        };
        let wood = Fill::Block { kind: BlockKind::Wood, colour: Rgb { r: 55, g: 25, b: 8 } };
        let base = self.alt + 1;
        let roof = base + 5;
        let roof_top = roof + 5;
        let chimney = roof_top + 2;
        let center = self.center();
        let min = self.min;
        let max = self.max;
        let mut plan: Vec<Paint> = Vec::new();

        // Base
        plan.push(
            Paint::Fill {
                shape: Primitive::Aabb {
                    min: Point3 { x: min.x + 1, y: min.y + 1, z: base - 16 },
                    max: Point3 { x: max.x, y: max.y, z: base },
                },
                fill: brick,
            },
        );
        plan.push(
            Paint::Clear {
                shape: Primitive::Aabb {
                    min: Point3 { x: min.x + 2, y: min.y + 2, z: base },
                    max: Point3 { x: max.x - 1, y: max.y - 1, z: roof },
                },
            },
        );

        // Supports
        plan.push(
            Paint::Fill {
                shape: Primitive::Line {
                    a: Point3 { x: min.x + 3, y: min.y + 3, z: base },
                    b: Point3 { x: min.x + 3, y: min.y + 3, z: roof },
                    radius: 1,
                },
                fill: wood,
            },
        );
        plan.push(
            Paint::Fill {
                shape: Primitive::Line {
                    a: Point3 { x: max.x - 3, y: min.y + 3, z: base },
                    b: Point3 { x: max.x - 3, y: min.y + 3, z: roof },
                    radius: 1,
                },
                fill: wood,
            },
        );
        plan.push(
            Paint::Fill {
                shape: Primitive::Line {
                    a: Point3 { x: min.x + 3, y: max.y - 3, z: base },
                    b: Point3 { x: min.x + 3, y: max.y - 3, z: roof },
                    radius: 1,
                },
                fill: wood,
            },
        );
        plan.push(
            Paint::Fill {
                shape: Primitive::Line {
                    a: Point3 { x: max.x - 3, y: max.y - 3, z: base },
                    b: Point3 { x: max.x - 3, y: max.y - 3, z: roof },
                    radius: 1,
                },
                fill: wood,
            },
        );

        // Roof
        plan.push(
            Paint::Fill {
                shape: Primitive::Pyramid {
                    min: Point3 { x: min.x + 2, y: min.y + 2, z: roof },
                    max: Point3 { x: max.x - 1, y: max.y - 1, z: roof_top },
                },
                fill: Fill::Brick {
                    kind: BlockKind::Rock,
                    colour: Rgb { r: 45, g: 28, b: 21 },
                    range: 24,
                },
            },
        );

        // Chimney
        plan.push(
            Paint::Fill {
                shape: Primitive::Line {
                    a: Point3 { x: center.x, y: center.y, z: base + 4 },
                    b: Point3 { x: center.x, y: center.y, z: chimney },
                    radius: 3,
                },
                fill: brick,
            },
        );
        plan.push(
            Paint::Clear {
                shape: Primitive::Line {
                    a: Point3 { x: center.x, y: center.y, z: base },
                    b: Point3 { x: center.x, y: center.y, z: chimney + 2 },
                    radius: 2,
                },
            },
        );
        assert(plan@ =~= self.structure());

        let mut x: i32 = -1;
        while x < 2
            invariant
                -1 <= x <= 2,
                self.paintable(),
                center.x == self.center_x(),
                center.y == self.center_y(),
                base == self.base(),
                plan@ == self.structure() + self.embers().subrange(0, 3 * (x + 1)),
            decreases 2 - x,
        {
            let mut y: i32 = -1;
            while y < 2
                invariant
                    -1 <= y <= 2,
                    -1 <= x < 2,
                    self.paintable(),
                    center.x == self.center_x(),
                    center.y == self.center_y(),
                    base == self.base(),
                    plan@ == self.structure() + self.embers().subrange(0, 3 * (x + 1) + (y + 1)),
                decreases 2 - y,
            {
                let pos = Point3 { x: center.x + x, y: center.y + y, z: base - 1 };
                proof {
                    let index = 3 * (x + 1) + (y + 1);
                    assert(index / 3 == x + 1 && index % 3 == y + 1);
                    assert(pos == self.ember_position(index));
                    assert(self.embers().subrange(0, index + 1) =~= self.embers().subrange(
                        0,
                        index,
                    ).push(Paint::Sprite { pos, kind: SpriteKind::Ember }));
                }
                plan.push(Paint::Sprite { pos, kind: SpriteKind::Ember });
                y = y + 1;
                assert(plan@ =~= self.structure() + self.embers().subrange(
                    0,
                    3 * (x + 1) + (y + 1),
                ));
            }
            x = x + 1;
        }
        assert(self.embers().subrange(0, 9) =~= self.embers());

        let positions = self.station_positions();
        let mut i: usize = 0;
        while i < 12
            invariant
                i <= 12,
                samples@.len() == 12,
                positions@ == self.spec_station_positions(),
                plan@ == self.structure() + self.embers() + self.station_sprites(
                    samples@,
                ).subrange(0, i as int),
            decreases 12 - i,
        {
            let sprite = Paint::Sprite { pos: positions[i], kind: station_for(samples[i]) };
            proof {
                assert(sprite == self.station_sprites(samples@)[i as int]);
                assert(self.station_sprites(samples@).subrange(0, i + 1) =~= self.station_sprites(
                    samples@,
                ).subrange(0, i as int).push(sprite));
            }
            plan.push(sprite);
            i = i + 1;
            assert(plan@ =~= self.structure() + self.embers() + self.station_sprites(
                samples@,
            ).subrange(0, i as int));
        }
        assert(self.station_sprites(samples@).subrange(0, 12) =~= self.station_sprites(samples@));
        plan
    }
}

} // verus!
