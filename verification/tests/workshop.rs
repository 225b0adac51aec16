use simcore::workshop::{
    cardinal, station_for, BlockKind, Fill, Paint, Point2, Point3, Primitive, Rgb, SpriteKind,
    Workshop,
};

fn plot() -> Workshop {
    Workshop::generate(Point2 { x: 10, y: 20 }, Point2 { x: 30, y: 44 }, 100)
}

fn p(x: i32, y: i32, z: i32) -> Point3 {
    Point3 { x, y, z }
}

#[test]
fn generate_keeps_the_plot_and_the_altitude() {
    let workshop = plot();
    assert_eq!(workshop.min, Point2 { x: 10, y: 20 });
    assert_eq!(workshop.max, Point2 { x: 30, y: 44 });
    assert_eq!(workshop.alt, 100);
    assert!(workshop.is_paintable());
}

#[test]
fn center_is_the_midpoint_rounded_toward_zero() {
    assert_eq!(plot().center(), Point2 { x: 20, y: 32 });
    let odd = Workshop::generate(Point2 { x: 1, y: -8 }, Point2 { x: 4, y: 3 }, 0);
    assert_eq!(odd.center(), Point2 { x: 2, y: -2 });
    let negative = Workshop::generate(Point2 { x: -7, y: -3 }, Point2 { x: 2, y: 0 }, 0);
    assert_eq!(negative.center(), Point2 { x: -2, y: -1 });
}

#[test]
fn cardinals_run_north_east_south_west() {
    assert_eq!(cardinal(0), Point2 { x: 0, y: 1 });
    assert_eq!(cardinal(1), Point2 { x: 1, y: 0 });
    assert_eq!(cardinal(2), Point2 { x: 0, y: -1 });
    assert_eq!(cardinal(3), Point2 { x: -1, y: 0 });
}

#[test]
fn samples_count_through_the_stations() {
    let expected = [
        SpriteKind::CraftingBench,
        SpriteKind::Forge,
        SpriteKind::SpinningWheel,
        SpriteKind::TanningRack,
        SpriteKind::CookingPot,
        SpriteKind::Cauldron,
        SpriteKind::Loom,
        SpriteKind::Anvil,
        SpriteKind::DismantlingBench,
    ];
    for (sample, kind) in expected.iter().enumerate() {
        assert_eq!(station_for(sample as u32), *kind);
        assert_eq!(station_for(sample as u32 + 9), *kind);
    }
    // 4294967295 == 9 * 477218588 + 3
    assert_eq!(station_for(u32::MAX), SpriteKind::TanningRack);
}

#[test]
fn stations_stand_on_the_four_axes() {
    let positions = plot().station_positions();
    assert_eq!(
        positions,
        vec![
            p(20, 35, 101),
            p(20, 37, 101),
            p(20, 39, 101),
            p(23, 32, 101),
            p(25, 32, 101),
            p(27, 32, 101),
            p(20, 29, 101),
            p(20, 27, 101),
            p(20, 25, 101),
            p(17, 32, 101),
            p(15, 32, 101),
            p(13, 32, 101),
        ]
    );
}

#[test]
fn render_paints_hall_embers_and_stations_in_order() {
    let workshop = plot();
    let samples: Vec<u32> = (0..12).collect();
    let plan = workshop.render(&samples);
    assert_eq!(plan.len(), 30);

    let brick = Fill::Brick { kind: BlockKind::Rock, colour: Rgb { r: 80, g: 75, b: 85 }, range: 24 };
    let wood = Fill::Block { kind: BlockKind::Wood, colour: Rgb { r: 55, g: 25, b: 8 } };
    let support = |x: i32, y: i32| Paint::Fill {
        shape: Primitive::Line { a: p(x, y, 101), b: p(x, y, 106), radius: 1 },
        fill: wood,
    };
    assert_eq!(
        plan[..9],
        [
            Paint::Fill {
                shape: Primitive::Aabb { min: p(11, 21, 85), max: p(30, 44, 101) },
                fill: brick,
            },
            Paint::Clear { shape: Primitive::Aabb { min: p(12, 22, 101), max: p(29, 43, 106) } },
            support(13, 23),
            support(27, 23),
            support(13, 41),
            support(27, 41),
            Paint::Fill {
                shape: Primitive::Pyramid { min: p(12, 22, 106), max: p(29, 43, 111) },
                fill: Fill::Brick {
                    kind: BlockKind::Rock,
                    colour: Rgb { r: 45, g: 28, b: 21 },
                    range: 24,
                },
            },
            Paint::Fill {
                shape: Primitive::Line { a: p(20, 32, 105), b: p(20, 32, 113), radius: 3 },
                fill: brick,
            },
            Paint::Clear {
                shape: Primitive::Line { a: p(20, 32, 101), b: p(20, 32, 115), radius: 2 },
            },
        ]
    );

    let ember = |x: i32, y: i32| Paint::Sprite { pos: p(x, y, 100), kind: SpriteKind::Ember };
    assert_eq!(
        plan[9..18],
        [
            ember(19, 31),
            ember(19, 32),
            ember(19, 33),
            ember(20, 31),
            ember(20, 32),
            ember(20, 33),
            ember(21, 31),
            ember(21, 32),
            ember(21, 33),
        ]
    );

    let positions = workshop.station_positions();
    for index in 0..12 {
        assert_eq!(
            plan[18 + index],
            Paint::Sprite { pos: positions[index], kind: station_for(index as u32) }
        );
    }
    assert_eq!(plan[18], Paint::Sprite { pos: p(20, 35, 101), kind: SpriteKind::CraftingBench });
    assert_eq!(plan[29], Paint::Sprite { pos: p(13, 32, 101), kind: SpriteKind::SpinningWheel });
}

#[test]
fn render_follows_the_samples() {
    let workshop = plot();
    let plan = workshop.render(&vec![7; 12]);
    for paint in &plan[18..] {
        assert!(matches!(paint, Paint::Sprite { kind: SpriteKind::Anvil, .. }));
    }
}

#[test]
fn layouts_at_the_edge_of_the_world_are_not_paintable() {
    let fits = |min: (i32, i32), max: (i32, i32), alt: i32| {
        Workshop::generate(Point2 { x: min.0, y: min.1 }, Point2 { x: max.0, y: max.1 }, alt)
            .is_paintable()
    };
    assert!(fits((0, 0), (10, 10), i32::MAX - 15));
    assert!(!fits((0, 0), (10, 10), i32::MAX - 14));
    assert!(fits((0, 0), (10, 10), i32::MIN + 15));
    assert!(!fits((0, 0), (10, 10), i32::MIN + 14));
    // the corners' sum must fit
    assert!(!fits((i32::MAX - 3, 0), (i32::MAX, 10), 0));
    assert!(!fits((i32::MIN, 0), (i32::MIN + 3, 10), 0));
    // a corner moved inward by 3 must fit
    assert!(!fits((i32::MAX - 2, 0), (0, 10), 0));
    assert!(!fits((0, 0), (10, i32::MIN + 2), 0));
    // the centre needs 7 blocks around it
    assert!(fits((i32::MAX - 20, 0), (14, 10), 0));
    assert!(!fits((i32::MAX - 3, 0), (i32::MAX - 9, 10), 0));
    assert!(fits((-5, -5), (5, 5), 0));
}
