use vstd::prelude::*;
use crate::tools::ToolKind;

verus! {

/// Side of a tool sprite, in pixels.
pub const SPRITE_SIDE: usize = 16;
/// Bytes of a tool sprite: 16 x 16 RGBA pixels.
pub const SPRITE_BYTES: usize = 1024;

/// Byte index of channel `c` of pixel (`x`, `y`) in a row-major RGBA buffer
/// 16 pixels wide.
pub open spec fn pidx(x: int, y: int, c: int) -> int {
    (y * 16 + x) * 4 + c
}

/// Channel `c` of a colour.
pub open spec fn chan(rgba: (u8, u8, u8, u8), c: int) -> u8 {
    if c == 0 { rgba.0 } else if c == 1 { rgba.1 } else if c == 2 { rgba.2 } else { rgba.3 }
}

pub open spec fn pixel_in_range(x: int, y: int, c: int) -> bool {
    0 <= x < 16 && 0 <= y < 16 && 0 <= c < 4
}

pub open spec fn in_rect(x: int, y: int, x0: int, x1: int, y0: int, y1: int) -> bool {
    x0 <= x <= x1 && y0 <= y <= y1
}

pub open spec fn brown() -> (u8, u8, u8, u8) { (101u8, 67u8, 33u8, 255u8) }
pub open spec fn gray() -> (u8, u8, u8, u8) { (120u8, 120u8, 120u8, 255u8) }
pub open spec fn blue_gray() -> (u8, u8, u8, u8) { (90u8, 120u8, 160u8, 255u8) }
pub open spec fn white() -> (u8, u8, u8, u8) { (240u8, 240u8, 240u8, 255u8) }
pub open spec fn clear() -> (u8, u8, u8, u8) { (0u8, 0u8, 0u8, 0u8) }

/// A two-pixel-wide brown handle in columns `col`, `col + 1`.
pub open spec fn on_handle(x: int, y: int, col: int, r0: int, r1: int) -> bool {
    in_rect(x, y, col, col + 1, r0, r1)
}

/// The colour of pixel (`x`, `y`) of a tool's sprite: a brown handle with a
/// gray head for the hoe, axe, pickaxe and scythe, a blue-gray can with a
/// brown handle, and a thin brown rod with a white line.
pub open spec fn tool_pixel(tool: ToolKind, x: int, y: int) -> (u8, u8, u8, u8) {
    match tool {
        ToolKind::Hoe =>
            if in_rect(x, y, 2, 8, 12, 14) { gray() }
            else if on_handle(x, y, 6, 0, 11) { brown() }
            else { clear() },
        ToolKind::Axe =>
            if in_rect(x, y, 5, 9, 10, 10) || in_rect(x, y, 4, 10, 11, 11) || in_rect(x, y, 3, 11, 12, 13)
                || in_rect(x, y, 4, 10, 14, 14) || in_rect(x, y, 5, 9, 15, 15) { gray() }
            else if on_handle(x, y, 6, 0, 9) { brown() }
            else { clear() },
        ToolKind::Pickaxe =>
            if in_rect(x, y, 11, 12, 12, 15) || in_rect(x, y, 2, 3, 12, 15) || in_rect(x, y, 2, 12, 10, 11) { gray() }
            else if on_handle(x, y, 6, 0, 9) { brown() }
            else { clear() },
        ToolKind::WateringCan =>
            if in_rect(x, y, 5, 9, 3, 4) { brown() }
            else if in_rect(x, y, 10, 14, 4, 5) || in_rect(x, y, 3, 12, 6, 13) { blue_gray() }
            else { clear() },
        ToolKind::FishingRod =>
            if in_rect(x, y, 8, 8, 15, 15) || in_rect(x, y, 7, 7, 14, 14) { white() }
            else if in_rect(x, y, 7, 7, 0, 13) { brown() }
            else { clear() },
        ToolKind::Scythe =>
            if in_rect(x, y, 2, 12, 9, 9) || in_rect(x, y, 1, 11, 10, 10) || in_rect(x, y, 1, 8, 11, 11)
                || in_rect(x, y, 2, 6, 12, 12) || in_rect(x, y, 4, 6, 13, 13) || in_rect(x, y, 5, 6, 14, 14) { gray() }
            else if on_handle(x, y, 6, 0, 8) { brown() }
            else { clear() },
    }
}

/// Paints the rectangle of columns `x0..=x1` and rows `y0..=y1`; every other
/// byte stays.
fn fill_rect(data: &mut Vec<u8>, x0: usize, x1: usize, y0: usize, y1: usize, rgba: (u8, u8, u8, u8))
    requires
        old(data).len() == SPRITE_BYTES,
        x0 <= x1 < 16,
        y0 <= y1 < 16,
    ensures
        final(data).len() == SPRITE_BYTES,
        forall|x: int, y: int, c: int| pixel_in_range(x, y, c) ==>
            #[trigger] final(data)@[pidx(x, y, c)] == if in_rect(x, y, x0 as int, x1 as int, y0 as int, y1 as int) {
                chan(rgba, c)
            } else {
                old(data)@[pidx(x, y, c)]
            },
{
    let ghost d0 = data@;
    let mut y: usize = y0;
    while y <= y1
        invariant
            y0 <= y <= y1 + 1,
            x0 <= x1 < 16,
            y1 < 16,
            data.len() == SPRITE_BYTES,
            forall|px: int, py: int, c: int| pixel_in_range(px, py, c) ==>
                #[trigger] data@[pidx(px, py, c)] == if in_rect(px, py, x0 as int, x1 as int, y0 as int, y as int - 1) {
                    chan(rgba, c)
                } else {
                    d0[pidx(px, py, c)]
                },
        decreases y1 + 1 - y,
    {
        let mut x: usize = x0;
        while x <= x1
            invariant
                y0 <= y <= y1,
                x0 <= x <= x1 + 1,
                x1 < 16,
                y1 < 16,
                data.len() == SPRITE_BYTES,
                forall|px: int, py: int, c: int| pixel_in_range(px, py, c) ==>
                    #[trigger] data@[pidx(px, py, c)] == if in_rect(px, py, x0 as int, x1 as int, y0 as int, y as int - 1)
                        || (py == y && x0 <= px < x) {
                        chan(rgba, c)
                    } else {
                        d0[pidx(px, py, c)]
                    },
            decreases x1 + 1 - x,
        {
            let base = (y * 16 + x) * 4;
            let ghost before = data@;
            data.set(base, rgba.0);
            data.set(base + 1, rgba.1);
            data.set(base + 2, rgba.2);
            data.set(base + 3, rgba.3);
            proof {
                assert forall|px: int, py: int, c: int| pixel_in_range(px, py, c) implies
                    #[trigger] data@[pidx(px, py, c)] == if in_rect(px, py, x0 as int, x1 as int, y0 as int, y as int - 1)
                        || (py == y && x0 <= px < x + 1) {
                        chan(rgba, c)
                    } else {
                        d0[pidx(px, py, c)]
                    } by {
                    if px == x && py == y {
                        assert(pidx(px, py, c) == base + c);
                    } else {
                        assert(pidx(px, py, c) != base && pidx(px, py, c) != base + 1
                            && pidx(px, py, c) != base + 2 && pidx(px, py, c) != base + 3);
                        assert(data@[pidx(px, py, c)] == before[pidx(px, py, c)]);
                    }
                }
            }
            x = x + 1;
        }
        y = y + 1;
    }
}

fn blank() -> (data: Vec<u8>)
    ensures
        data.len() == SPRITE_BYTES,
        forall|x: int, y: int, c: int| pixel_in_range(x, y, c) ==> #[trigger] data@[pidx(x, y, c)] == 0,
{
    let mut data: Vec<u8> = Vec::new();
    let mut i: usize = 0;
    while i < SPRITE_BYTES
        invariant
            i <= SPRITE_BYTES,
            data.len() == i,
            forall|k: int| 0 <= k < i ==> data@[k] == 0,
        decreases SPRITE_BYTES - i,
    {
        data.push(0);
        i = i + 1;
    }
    proof {
        assert forall|x: int, y: int, c: int| pixel_in_range(x, y, c) implies #[trigger] data@[pidx(x, y, c)] == 0 by {
            assert(0 <= pidx(x, y, c) < 1024);
        }
    }
    data
}

/// The RGBA bytes of a tool's 16 x 16 sprite, row by row from the top.
pub fn tool_sprite_pixels(tool: ToolKind) -> (data: Vec<u8>)
    ensures
        data.len() == SPRITE_BYTES,
        forall|x: int, y: int, c: int| pixel_in_range(x, y, c) ==>
            #[trigger] data@[pidx(x, y, c)] == chan(tool_pixel(tool, x, y), c),
{
    let brown: (u8, u8, u8, u8) = (101, 67, 33, 255);
    let gray: (u8, u8, u8, u8) = (120, 120, 120, 255);
    let blue_gray: (u8, u8, u8, u8) = (90, 120, 160, 255);
    let white: (u8, u8, u8, u8) = (240, 240, 240, 255);
    let mut data = blank();
    match tool {
        ToolKind::Hoe => {
            fill_rect(&mut data, 6, 7, 0, 11, brown);
            fill_rect(&mut data, 2, 8, 12, 14, gray);
        },
        ToolKind::Axe => {
            fill_rect(&mut data, 6, 7, 0, 9, brown);
            fill_rect(&mut data, 5, 9, 10, 10, gray);
            fill_rect(&mut data, 4, 10, 11, 11, gray);
            fill_rect(&mut data, 3, 11, 12, 12, gray);
            fill_rect(&mut data, 3, 11, 13, 13, gray);
            fill_rect(&mut data, 4, 10, 14, 14, gray);
            fill_rect(&mut data, 5, 9, 15, 15, gray);
        },
        ToolKind::Pickaxe => {
            fill_rect(&mut data, 6, 7, 0, 9, brown);
            fill_rect(&mut data, 2, 12, 10, 11, gray);
            fill_rect(&mut data, 2, 3, 12, 15, gray);
            fill_rect(&mut data, 11, 12, 12, 15, gray);
        },
        ToolKind::WateringCan => {
            fill_rect(&mut data, 3, 12, 6, 13, blue_gray);
            fill_rect(&mut data, 10, 14, 4, 5, blue_gray);
            fill_rect(&mut data, 5, 9, 3, 4, brown);
        },
        ToolKind::FishingRod => {
            fill_rect(&mut data, 7, 7, 0, 13, brown);
            fill_rect(&mut data, 7, 7, 14, 14, white);
            fill_rect(&mut data, 8, 8, 15, 15, white);
        },
        ToolKind::Scythe => {
            fill_rect(&mut data, 6, 7, 0, 8, brown);
            fill_rect(&mut data, 2, 12, 9, 9, gray);
            fill_rect(&mut data, 1, 11, 10, 10, gray);
            fill_rect(&mut data, 1, 8, 11, 11, gray);
            fill_rect(&mut data, 2, 6, 12, 12, gray);
            fill_rect(&mut data, 4, 6, 13, 13, gray);
            fill_rect(&mut data, 5, 6, 14, 14, gray);
        },
    }
    data
}

} // verus!
