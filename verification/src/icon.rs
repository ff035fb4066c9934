//! The tray's clock icon: a blue ring around a white face with dark hands,
//! drawn as ARGB32 pixels.
use vstd::prelude::*;

verus! {

/// The colours of the icon.
#[derive(Debug, Clone, Copy, PartialEq, Eq)]
pub enum IconColor {
    Transparent,
    Blue,
    DarkBlue,
    White,
}

/// The ARGB bytes of a colour: blue `#3584E4`, dark blue `#1C71D8`, white,
/// and zero for transparent.
pub open spec fn color_byte(c: IconColor, k: int) -> u8 {
    match c {
        IconColor::Transparent => 0,
        IconColor::Blue => if k == 0 {
            0xFF
        } else if k == 1 {
            0x35
        } else if k == 2 {
            0x84
        } else {
            0xE4
        },
        IconColor::DarkBlue => if k == 0 {
            0xFF
        } else if k == 1 {
            0x1C
        } else if k == 2 {
            0x71
        } else {
            0xD8
        },
        IconColor::White => 0xFF,
    }
}

fn color_byte_exec(c: IconColor, k: usize) -> (b: u8)
    requires
        k < 4,
    ensures
        b == color_byte(c, k as int),
{
    match c {
        IconColor::Transparent => 0,
        IconColor::Blue => if k == 0 {
            0xFF
        } else if k == 1 {
            0x35
        } else if k == 2 {
            0x84
        } else {
            0xE4
        },
        IconColor::DarkBlue => if k == 0 {
            0xFF
        } else if k == 1 {
            0x1C
        } else if k == 2 {
            0x71
        } else {
            0xD8
        },
        IconColor::White => 0xFF,
    }
}

/// Four times the squared distance of the centre of pixel `(x, y)` from the
/// centre of the icon.
pub open spec fn dist_sq4(size: int, x: int, y: int) -> int {
    (2 * x - size + 1) * (2 * x - size + 1) + (2 * y - size + 1) * (2 * y - size + 1)
}

/// The face: transparent outside the circle of radius `size / 2 - 0.5`, blue
/// on the ring two pixels wide inside it, white within.
pub open spec fn face_color(size: int, x: int, y: int) -> IconColor {
    if dist_sq4(size, x, y) > (size - 1) * (size - 1) {
        IconColor::Transparent
    } else if size < 5 || dist_sq4(size, x, y) > (size - 5) * (size - 5) {
        IconColor::Blue
    } else {
        IconColor::White
    }
}

/// The `i`-th point of the minute hand, `(c + i*3/4, c - i/2)`.
pub open spec fn minute_point(c: int, i: int) -> (int, int) {
    (c + i * 3 / 4, c - i / 2)
}

/// A pixel of the minute hand: its points for `i` from 2 to 7.
pub open spec fn on_minute_hand(c: int, x: int, y: int) -> bool {
    exists|i: int| 2 <= i <= 7 && #[trigger] minute_point(c, i) == (x, y)
}

/// A pixel of the hands: the hour hand `(c, c - i)` for `i` from 2 to 6, the
/// minute hand, and the centre, where `c = size / 2`.
pub open spec fn on_hands(size: int, x: int, y: int) -> bool {
    let c = size / 2;
    ||| x == c && c - 6 <= y <= c - 2
    ||| on_minute_hand(c, x, y)
    ||| x == c && y == c
}

/// The colour of pixel `(x, y)` of an icon `size` pixels wide.
pub open spec fn pixel_color(size: int, x: int, y: int) -> IconColor {
    if on_hands(size, x, y) {
        IconColor::DarkBlue
    } else {
        face_color(size, x, y)
    }
}

/// The offset of pixel `(x, y)`'s first byte.
pub open spec fn pixel_offset(size: int, x: int, y: int) -> int {
    (y * size + x) * 4
}

/// An ARGB32 pixmap, row by row, four bytes a pixel.
#[derive(Debug, Clone, PartialEq, Eq)]
pub struct Pixmap {
    pub width: i32,
    pub height: i32,
    pub data: Vec<u8>,
}

proof fn lemma_offset_order(size: int, x1: int, y1: int, x2: int, y2: int)
    requires
        0 <= x1 < size,
        0 <= x2 < size,
        0 <= y1,
        0 <= y2,
        y1 < y2 || (y1 == y2 && x1 < x2),
    ensures
        y1 * size + x1 < y2 * size + x2,
{
    if y1 < y2 {
        assert(y1 * size + size <= y2 * size) by (nonlinear_arith)
            requires
                y1 < y2,
                size > 0,
        ;
    }
}

proof fn lemma_offset_in_range(size: int, x: int, y: int)
    requires
        0 <= x < size,
        0 <= y < size,
    ensures
        0 <= y * size + x < size * size,
{
    assert(0 <= y * size) by (nonlinear_arith)
        requires
            0 <= y,
            0 < size,
    ;
    assert(y * size + size <= size * size) by (nonlinear_arith)
        requires
            y < size,
            0 < size,
    ;
}

/// The bytes of every pixel before `(x, y)`, row by row, have their face
/// colour.
spec fn filled_before(data: Seq<u8>, size: int, x: int, y: int) -> bool {
    forall|xx: int, yy: int, k: int|
        0 <= xx < size && 0 <= yy && (yy < y || (yy == y && xx < x)) && 0 <= k < 4
            ==> #[trigger] data[pixel_offset(size, xx, yy) + k] == color_byte(face_color(size, xx, yy), k)
}

/// The face: every pixel coloured, with no hands yet.
fn draw_face(size: i32) -> (data: Vec<u8>)
    requires
        0 <= size,
        size * size * 4 <= i32::MAX,
    ensures
        data@.len() == size * size * 4,
        forall|x: int, y: int, k: int|
            0 <= x < size && 0 <= y < size && 0 <= k < 4 ==> #[trigger] data@[pixel_offset(size as int, x, y) + k]
                == color_byte(face_color(size as int, x, y), k),
{
    let mut data: Vec<u8> = Vec::new();
    let ghost sz = size as int;
    let mut y: i32 = 0;
    while y < size
        invariant
            0 <= y <= size,
            size * size * 4 <= i32::MAX,
            sz == size,
            data@.len() == y * size * 4,
            filled_before(data@, sz, 0, y as int),
        decreases size - y,
    {
        let mut x: i32 = 0;
        while x < size
            invariant
                0 <= y < size,
                0 <= x <= size,
                size * size * 4 <= i32::MAX,
                sz == size,
                data@.len() == (y * size + x) * 4,
                filled_before(data@, sz, x as int, y as int),
            decreases size - x,
        {
            proof {
                lemma_offset_in_range(sz, x as int, y as int);
            }
            let dx: i64 = 2 * (x as i64) - (size as i64) + 1;
            let dy: i64 = 2 * (y as i64) - (size as i64) + 1;
            assert(-0x1_0000 <= dx <= 0x1_0000 && -0x1_0000 <= dy <= 0x1_0000) by (nonlinear_arith)
                requires
                    dx == 2 * x - size + 1,
                    dy == 2 * y - size + 1,
                    0 <= x < size,
                    0 <= y < size,
                    size * size * 4 <= i32::MAX,
            ;
            assert(0 <= dx * dx <= 0x1_0000_0000 && 0 <= dy * dy <= 0x1_0000_0000) by (nonlinear_arith)
                requires
                    -0x1_0000 <= dx <= 0x1_0000,
                    -0x1_0000 <= dy <= 0x1_0000,
            ;
            let d2: i64 = dx * dx + dy * dy;
            let outer: i64 = (size as i64) - 1;
            let border: i64 = (size as i64) - 5;
            assert(outer * outer <= 0x1_0000_0000 && border * border <= 0x1_0000_0000) by (nonlinear_arith)
                requires
                    outer == size - 1,
                    border == size - 5,
                    0 <= size,
                    size * size * 4 <= i32::MAX,
            ;
            let color = if d2 > outer * outer {
                IconColor::Transparent
            } else if size < 5 || d2 > border * border {
                IconColor::Blue
            } else {
                IconColor::White
            };
            assert(color == face_color(sz, x as int, y as int));
            let ghost before = data@;
            let mut k: usize = 0;
            while k < 4
                invariant
                    k <= 4,
                    data@.len() == before.len() + k,
                    forall|j: int| 0 <= j < before.len() ==> data@[j] == before[j],
                    forall|j: int| 0 <= j < k ==> data@[before.len() + j] == color_byte(color, j),
                decreases 4 - k,
            {
                data.push(color_byte_exec(color, k));
                k = k + 1;
            }
            proof {
                assert(before.len() == pixel_offset(sz, x as int, y as int));
                assert(filled_before(before, sz, x as int, y as int));
                assert forall|xx: int, yy: int, kk: int|
                    0 <= xx < sz && 0 <= yy && (yy < y || (yy == y && xx < x + 1)) && 0 <= kk < 4 implies #[trigger] data@[pixel_offset(
                    sz,
                    xx,
                    yy,
                ) + kk] == color_byte(face_color(sz, xx, yy), kk) by {
                    let off = pixel_offset(sz, xx, yy) + kk;
                    if yy == y && xx == x {
                        assert(off == before.len() + kk);
                        assert(data@[before.len() + kk] == color_byte(color, kk));
                    } else {
                        lemma_offset_order(sz, xx, yy, x as int, y as int);
                        assert(pixel_offset(sz, xx, yy) + kk < before.len()) by (nonlinear_arith)
                            requires
                                yy * sz + xx < y * sz + x,
                                0 <= kk < 4,
                                before.len() == (y * sz + x) * 4,
                        ;
                        assert(data@[off] == before[off]);
                        assert(before[off] == color_byte(face_color(sz, xx, yy), kk));
                    }
                }
            }
            x = x + 1;
        }
        proof {
            assert forall|xx: int, yy: int, kk: int|
                0 <= xx < sz && 0 <= yy && (yy < y + 1 || (yy == y + 1 && xx < 0)) && 0 <= kk < 4 implies #[trigger] data@[pixel_offset(
                sz,
                xx,
                yy,
            ) + kk] == color_byte(face_color(sz, xx, yy), kk) by {
                if yy == y {
                    assert(filled_before(data@, sz, sz, y as int));
                } else {
                    assert(filled_before(data@, sz, sz, y as int));
                }
            }
            assert((y * size + size) * 4 == (y + 1) * size * 4) by (nonlinear_arith);
        }
        y = y + 1;
    }
    data
}

/// The pixels painted dark so far: the hour hand's points `i` below `hour`,
/// the minute hand's points `i` below `minute`, and the centre once `centre`.
pub open spec fn painted(size: int, x: int, y: int, hour: int, minute: int, centre: bool) -> bool {
    let c = size / 2;
    ||| x == c && c - hour < y <= c - 2
    ||| exists|i: int| 2 <= i < minute && #[trigger] minute_point(c, i) == (x, y)
    ||| centre && x == c && y == c
}

/// Every pixel's bytes hold its face colour, or dark blue where painted.
spec fn drawn(data: Seq<u8>, size: int, hour: int, minute: int, centre: bool) -> bool {
    &&& data.len() == size * size * 4
    &&& forall|x: int, y: int, k: int|
        0 <= x < size && 0 <= y < size && 0 <= k < 4 ==> #[trigger] data[pixel_offset(size, x, y) + k] == color_byte(
            if painted(size, x, y, hour, minute, centre) {
                IconColor::DarkBlue
            } else {
                face_color(size, x, y)
            },
            k,
        )
}

/// Colours pixel `(x, y)` when it lies on the icon, leaving every other pixel.
fn plot(data: &mut Vec<u8>, size: i32, x: i32, y: i32, color: IconColor)
    requires
        0 <= size,
        size * size * 4 <= i32::MAX,
        old(data)@.len() == size * size * 4,
    ensures
        final(data)@.len() == old(data)@.len(),
        forall|xx: int, yy: int, k: int|
            0 <= xx < size && 0 <= yy < size && 0 <= k < 4 ==> #[trigger] final(data)@[pixel_offset(size as int, xx, yy) + k]
                == if xx == x && yy == y {
                color_byte(color, k)
            } else {
                old(data)@[pixel_offset(size as int, xx, yy) + k]
            },
{
    let ghost sz = size as int;
    if x >= 0 && x < size && y >= 0 && y < size {
        proof {
            lemma_offset_in_range(sz, x as int, y as int);
        }
        let idx: usize = ((y as usize) * (size as usize) + (x as usize)) * 4;
        assert(idx == pixel_offset(sz, x as int, y as int));
        let ghost before = data@;
        assert(idx + 4 <= before.len()) by (nonlinear_arith)
            requires
                idx == (y * sz + x) * 4,
                0 <= y * sz + x < sz * sz,
                before.len() == sz * sz * 4,
        ;
        let mut k: usize = 0;
        while k < 4
            invariant
                k <= 4,
                idx + 4 <= before.len(),
                before.len() <= i32::MAX,
                data@.len() == before.len(),
                forall|j: int| 0 <= j < before.len() && !(idx <= j < idx + k) ==> data@[j] == before[j],
                forall|j: int| 0 <= j < k ==> data@[idx + j] == color_byte(color, j),
            decreases 4 - k,
        {
            data.set(idx + k, color_byte_exec(color, k));
            k = k + 1;
        }
        proof {
            assert forall|xx: int, yy: int, kk: int|
                0 <= xx < sz && 0 <= yy < sz && 0 <= kk < 4 implies #[trigger] data@[pixel_offset(sz, xx, yy) + kk] == if xx
                == x && yy == y {
                color_byte(color, kk)
            } else {
                before[pixel_offset(sz, xx, yy) + kk]
            } by {
                lemma_offset_in_range(sz, xx, yy);
                if xx == x && yy == y {
                    assert(data@[idx + kk] == color_byte(color, kk));
                } else {
                    if yy < y || (yy == y && xx < x) {
                        lemma_offset_order(sz, xx, yy, x as int, y as int);
                    } else {
                        lemma_offset_order(sz, x as int, y as int, xx, yy);
                    }
                    assert(!(idx <= pixel_offset(sz, xx, yy) + kk < idx + 4)) by (nonlinear_arith)
                        requires
                            yy * sz + xx != y * sz + x,
                            idx == (y * sz + x) * 4,
                            0 <= kk < 4,
                    ;
                    assert(pixel_offset(sz, xx, yy) + kk < before.len()) by (nonlinear_arith)
                        requires
                            0 <= yy * sz + xx < sz * sz,
                            0 <= kk < 4,
                            before.len() == sz * sz * 4,
                    ;
                }
            }
        }
    }
}

/// The clock icon, `size` pixels square: pixel `(x, y)` has the colour
/// `pixel_color(size, x, y)`. A negative size gives an all-transparent pixmap
/// of `size * size` pixels.
pub fn generate_clock_icon(size: i32) -> (icon: Pixmap)
    requires
        size * size * 4 <= i32::MAX,
    ensures
        icon.width == size,
        icon.height == size,
        icon.data@.len() == size * size * 4,
        forall|x: int, y: int, k: int|
            0 <= x < size && 0 <= y < size && 0 <= k < 4 ==> #[trigger] icon.data@[pixel_offset(size as int, x, y) + k]
                == color_byte(pixel_color(size as int, x, y), k),
        size < 0 ==> forall|j: int| 0 <= j < icon.data@.len() ==> icon.data@[j] == 0,
{
    if size < 0 {
        assert(0 <= size * size) by (nonlinear_arith);
        let n: usize = (size * size * 4) as usize;
        let mut data: Vec<u8> = Vec::new();
        while data.len() < n
            invariant
                data@.len() <= n,
                forall|j: int| 0 <= j < data@.len() ==> data@[j] == 0,
            decreases n - data@.len(),
        {
            data.push(0);
        }
        return Pixmap { width: size, height: size, data };
    }
    let ghost sz = size as int;
    let mut data = draw_face(size);
    let c: i32 = size / 2;
    assert(drawn(data@, sz, 2, 2, false));
    let mut i: i32 = 2;
    while i <= 6
        invariant
            2 <= i <= 7,
            0 <= size,
            size * size * 4 <= i32::MAX,
            sz == size,
            c == size / 2,
            drawn(data@, sz, i as int, 2, false),
        decreases 7 - i,
    {
        let ghost before = data@;
        plot(&mut data, size, c, c - i, IconColor::DarkBlue);
        assert forall|x: int, y: int, k: int|
            0 <= x < sz && 0 <= y < sz && 0 <= k < 4 implies #[trigger] data@[pixel_offset(sz, x, y) + k] == color_byte(
            if painted(sz, x, y, i + 1, 2, false) {
                IconColor::DarkBlue
            } else {
                face_color(sz, x, y)
            },
            k,
        ) by {
            assert(before[pixel_offset(sz, x, y) + k] == color_byte(
                if painted(sz, x, y, i as int, 2, false) {
                    IconColor::DarkBlue
                } else {
                    face_color(sz, x, y)
                },
                k,
            ));
        }
        i = i + 1;
    }
    let mut i: i32 = 2;
    while i <= 7
        invariant
            2 <= i <= 8,
            0 <= size,
            size * size * 4 <= i32::MAX,
            sz == size,
            c == size / 2,
            drawn(data@, sz, 7, i as int, false),
        decreases 8 - i,
    {
        let ghost before = data@;
        let mx = c + (i * 3 / 4);
        let my = c - (i / 2);
        assert(minute_point(sz / 2, i as int) == (mx as int, my as int));
        plot(&mut data, size, mx, my, IconColor::DarkBlue);
        assert forall|x: int, y: int, k: int|
            0 <= x < sz && 0 <= y < sz && 0 <= k < 4 implies #[trigger] data@[pixel_offset(sz, x, y) + k] == color_byte(
            if painted(sz, x, y, 7, i + 1, false) {
                IconColor::DarkBlue
            } else {
                face_color(sz, x, y)
            },
            k,
        ) by {
            assert(before[pixel_offset(sz, x, y) + k] == color_byte(
                if painted(sz, x, y, 7, i as int, false) {
                    IconColor::DarkBlue
                } else {
                    face_color(sz, x, y)
                },
                k,
            ));
            if x == mx && y == my {
                assert(painted(sz, x, y, 7, i + 1, false));
            } else if painted(sz, x, y, 7, i + 1, false) && !(x == sz / 2 && sz / 2 - 7 < y <= sz / 2 - 2) {
                let w = choose|w: int| 2 <= w < i + 1 && #[trigger] minute_point(sz / 2, w) == (x, y);
                assert(w != i);
                assert(painted(sz, x, y, 7, i as int, false));
            }
        }
        i = i + 1;
    }
    let ghost before = data@;
    plot(&mut data, size, c, c, IconColor::DarkBlue);
    assert forall|x: int, y: int, k: int|
        0 <= x < sz && 0 <= y < sz && 0 <= k < 4 implies #[trigger] data@[pixel_offset(sz, x, y) + k] == color_byte(
        pixel_color(sz, x, y),
        k,
    ) by {
        assert(before[pixel_offset(sz, x, y) + k] == color_byte(
            if painted(sz, x, y, 7, 8, false) {
                IconColor::DarkBlue
            } else {
                face_color(sz, x, y)
            },
            k,
        ));
        assert(painted(sz, x, y, 7, 8, true) == on_hands(sz, x, y));
    }
    Pixmap { width: size, height: size, data }
}

} // verus!
