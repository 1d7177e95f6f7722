use vstd::prelude::*;
use crate::geometry::{Point, Rect};
use crate::obstacle::{found_cells, piece_ok, platform_shape_ok, Barrier, Obstacle, Platform};
use crate::sprite::{Image, ImageAsset, Sheet, SpriteSheet};

verus! {

/// Height at which a stone rests on the ground.
pub const STONE_ON_GROUND: i16 = 546;

pub const LOW_PLATFORM: i16 = 420;

pub const HIGH_PLATFORM: i16 = 375;

pub const FIRST_PLATFORM: i16 = 370;

pub const PLATFORM_WIDTH: i16 = 384;

pub const PLATFORM_HEIGHT: i16 = 93;

pub const PLATFORM_EDGE_WIDTH: i16 = 60;

pub const PLATFORM_EDGE_HEIGHT: i16 = 54;

/// Where the stone of a stone-then-platform segment starts.
pub const STONE_FIRST_OFFSET: i16 = 150;

/// Where the stone of a platform-then-stone segment starts.
pub const STONE_SECOND_OFFSET: i16 = 400;

/// Where the platform of a platform-then-stone segment starts.
pub const PLATFORM_FIRST_OFFSET: i16 = 200;

/// The cells of a floating platform.
pub open spec fn floating_platform_sprites() -> Seq<&'static str> {
    seq!["13.png", "14.png", "15.png"]
}

/// The sheet holds every cell of a floating platform.
pub open spec fn has_platform_cells(sheet: Sheet) -> bool {
    forall|i: int| 0 <= i < floating_platform_sprites().len() ==> sheet.has((#[trigger] floating_platform_sprites()[i])@)
}

/// Whether `sheet` holds every cell of a floating platform.
pub fn platform_cells_present(sheet: &Sheet) -> (r: bool)
    ensures
        r == has_platform_cells(*sheet),
{
    let r = sheet.cell("13.png").is_some() && sheet.cell("14.png").is_some() && sheet.cell("15.png").is_some();
    proof {
        let names = floating_platform_sprites();
        assert(names[0] == "13.png" && names[1] == "14.png" && names[2] == "15.png");
    }
    r
}

/// The collision boxes of a floating platform, relative to its position: a
/// low edge on each side and a full-height middle.
pub open spec fn floating_platform_boxes() -> Seq<Rect> {
    seq![
        Rect { position: Point { x: 0, y: 0 }, width: PLATFORM_EDGE_WIDTH, height: PLATFORM_EDGE_HEIGHT },
        Rect {
            position: Point { x: PLATFORM_EDGE_WIDTH, y: 0 },
            width: (PLATFORM_WIDTH - PLATFORM_EDGE_WIDTH * 2) as i16,
            height: PLATFORM_HEIGHT,
        },
        Rect {
            position: Point { x: (PLATFORM_WIDTH - PLATFORM_EDGE_WIDTH) as i16, y: 0 },
            width: PLATFORM_EDGE_WIDTH,
            height: PLATFORM_EDGE_HEIGHT,
        },
    ]
}

/// `p` is a floating platform of `sheet` at `position`.
pub open spec fn is_floating_platform(p: Platform, sheet: SpriteSheet, position: Point) -> bool {
    &&& p.wf()
    &&& p.image == sheet.image
    &&& p.position == position
    &&& p.sprites@ == found_cells(sheet.sheet, floating_platform_sprites())
    &&& p.bounding_boxes@.len() == 3
    &&& forall|i: int|
        0 <= i < 3 ==> #[trigger] p.bounding_boxes@[i] == (Rect {
            position: Point {
                x: (floating_platform_boxes()[i].position.x + position.x) as i16,
                y: (floating_platform_boxes()[i].position.y + position.y) as i16,
            },
            ..floating_platform_boxes()[i]
        })
}

/// A stone that a segment may use.
pub open spec fn stone_ok(stone: ImageAsset) -> bool {
    piece_ok(stone.width as int) && piece_ok(stone.height as int)
}

/// An offset at which a segment may be placed.
pub open spec fn segment_offset_ok(offset_x: int) -> bool {
    -15000 <= offset_x <= 14000
}

/// `s` is a stone at `stone_x` on the ground followed by a floating platform
/// at (`platform_x`, `platform_y`).
pub open spec fn is_segment(
    s: Seq<Obstacle>,
    stone: ImageAsset,
    sheet: SpriteSheet,
    stone_x: int,
    platform_x: int,
    platform_y: i16,
) -> bool {
    &&& s.len() == 2
    &&& s[0] == Obstacle::Barrier(Barrier {
        image: Image {
            asset: stone,
            bounding_box: Rect {
                position: Point { x: stone_x as i16, y: STONE_ON_GROUND },
                width: stone.width,
                height: stone.height,
            },
        },
    })
    &&& s[1] matches Obstacle::Platform(p) && is_floating_platform(
        p,
        sheet,
        Point { x: platform_x as i16, y: platform_y },
    )
}

pub fn create_floating_platform(sheet: &SpriteSheet, position: Point) -> (r: Platform)
    requires
        sheet.sheet.wf(),
        has_platform_cells(sheet.sheet),
        -15000 <= position.x <= 15000,
        -15000 <= position.y <= 15000,
    ensures
        is_floating_platform(r, *sheet, position),
{
    let names: Vec<&'static str> = vec!["13.png", "14.png", "15.png"];
    let middle_width: i16 = PLATFORM_WIDTH - PLATFORM_EDGE_WIDTH * 2;
    let right_edge_x: i16 = PLATFORM_WIDTH - PLATFORM_EDGE_WIDTH;
    let boxes: Vec<Rect> = vec![
        Rect::new_from_x_y(0, 0, PLATFORM_EDGE_WIDTH, PLATFORM_EDGE_HEIGHT),
        Rect::new_from_x_y(PLATFORM_EDGE_WIDTH, 0, middle_width, PLATFORM_HEIGHT),
        Rect::new_from_x_y(right_edge_x, 0, PLATFORM_EDGE_WIDTH, PLATFORM_EDGE_HEIGHT),
    ];
    assert(names@ == floating_platform_sprites());
    assert(boxes@ == floating_platform_boxes());
    assert(names@.len() == 3);
    assert(platform_shape_ok(boxes@, 3));
    Platform::new(sheet, position, names.as_slice(), boxes.as_slice())
}

/// A stone on the ground, then a floating platform, from `offset_x`.
pub fn stone_and_platform(stone: ImageAsset, sheet: &SpriteSheet, offset_x: i16) -> (r: Vec<Obstacle>)
    requires
        stone_ok(stone),
        sheet.sheet.wf(),
        has_platform_cells(sheet.sheet),
        segment_offset_ok(offset_x as int),
    ensures
        is_segment(
            r@,
            stone,
            *sheet,
            offset_x + STONE_FIRST_OFFSET,
            offset_x + FIRST_PLATFORM,
            LOW_PLATFORM,
        ),
{
    let barrier = Barrier::new(
        Image::new(stone, Point { x: offset_x + STONE_FIRST_OFFSET, y: STONE_ON_GROUND }),
    );
    let platform = create_floating_platform(
        sheet,
        Point { x: offset_x + FIRST_PLATFORM, y: LOW_PLATFORM },
    );
    vec![Obstacle::Barrier(barrier), Obstacle::Platform(platform)]
}

/// A floating platform, then a stone on the ground, from `offset_x`.
pub fn platform_and_stone(stone: ImageAsset, sheet: &SpriteSheet, offset_x: i16) -> (r: Vec<Obstacle>)
    requires
        stone_ok(stone),
        sheet.sheet.wf(),
        has_platform_cells(sheet.sheet),
        segment_offset_ok(offset_x as int),
    ensures
        is_segment(
            r@,
            stone,
            *sheet,
            offset_x + STONE_SECOND_OFFSET,
            offset_x + PLATFORM_FIRST_OFFSET,
            HIGH_PLATFORM,
        ),
{
    let barrier = Barrier::new(
        Image::new(stone, Point { x: offset_x + STONE_SECOND_OFFSET, y: STONE_ON_GROUND }),
    );
    let platform = create_floating_platform(
        sheet,
        Point { x: offset_x + PLATFORM_FIRST_OFFSET, y: HIGH_PLATFORM },
    );
    vec![Obstacle::Barrier(barrier), Obstacle::Platform(platform)]
}

} // verus!
