//! The system tray entry: its tooltip and its icon, a blue disc.

use vstd::prelude::*;
use vstd::string::*;

verus! {

/// Width and height of the icon, in pixels.
pub const ICON_SIDE: u32 = 16;

/// What the tray entry is made of.
#[derive(Clone, Debug, PartialEq, Eq)]
pub struct TraySetup {
    /// The text shown when the pointer rests on the icon.
    pub tooltip: String,
    /// Width of the icon in pixels.
    pub icon_width: u32,
    /// Height of the icon in pixels.
    pub icon_height: u32,
    /// The icon, row by row, four bytes a pixel: red, green, blue, opacity.
    pub icon_rgba: Vec<u8>,
}

/// Four times the squared distance of the pixel at column `x`, row `y` from
/// the centre of the icon, which lies between the pixels at 7 and 8.
pub open spec fn spread(x: int, y: int) -> int {
    (2 * x - 15) * (2 * x - 15) + (2 * y - 15) * (2 * y - 15)
}

/// Opacity of a pixel of the disc by its [`spread`]. The disc is opaque up
/// to a distance of 5 pixels from the centre and fades out over the next
/// pixel and a half.
pub open spec fn opacity(spread: int) -> u8 {
    if spread <= 100 {
        255
    } else if spread == 106 {
        229
    } else if spread == 122 {
        166
    } else if spread == 130 {
        135
    } else if spread == 146 {
        77
    } else if spread == 162 {
        23
    } else {
        0
    }
}

/// The pixel at column `x`, row `y`: blue inside the disc of radius 6.5,
/// nothing outside.
pub open spec fn pixel(x: int, y: int) -> (u8, u8, u8, u8) {
    if spread(x, y) < 169 {
        (50, 120, 255, opacity(spread(x, y)))
    } else {
        (0, 0, 0, 0)
    }
}

/// The byte at position `k` of the icon.
pub open spec fn icon_byte(k: int) -> u8 {
    let p = pixel((k / 4) % 16, (k / 4) / 16);
    if k % 4 == 0 {
        p.0
    } else if k % 4 == 1 {
        p.1
    } else if k % 4 == 2 {
        p.2
    } else {
        p.3
    }
}

/// The icon: 16 rows of 16 pixels.
pub open spec fn icon() -> Seq<u8> {
    Seq::new(1024, |k: int| icon_byte(k))
}

/// On the fading rim the opacity falls linearly with the distance from the
/// centre, from 255 at 5 pixels to 0 at 6.5, rounded down: it is the
/// largest `a` with `a <= 85 * (13 - r)`, where `r * r` is the spread.
pub proof fn lemma_opacity_fades(x: int, y: int)
    requires
        0 <= x < 16,
        0 <= y < 16,
        100 < spread(x, y) < 169,
    ensures
        ({
            let rest = 1105 - opacity(spread(x, y));
            (rest - 1) * (rest - 1) < 7225 * spread(x, y) <= rest * rest
        }),
{
    lemma_offsets(x);
    lemma_offsets(y);
    let s = spread(x, y);
    assert(s == 106 || s == 122 || s == 130 || s == 146 || s == 162);
    let rest = 1105 - opacity(s);
    if s == 106 {
        assert(rest == 876);
        assert(875 * 875 < 7225 * 106 <= 876 * 876);
    } else if s == 122 {
        assert(rest == 939);
        assert(938 * 938 < 7225 * 122 <= 939 * 939);
    } else if s == 130 {
        assert(rest == 970);
        assert(969 * 969 < 7225 * 130 <= 970 * 970);
    } else if s == 146 {
        assert(rest == 1028);
        assert(1027 * 1027 < 7225 * 146 <= 1028 * 1028);
    } else {
        assert(rest == 1082);
        assert(1081 * 1081 < 7225 * 162 <= 1082 * 1082);
    }
}

/// The squared offsets of the sixteen columns.
proof fn lemma_offsets(x: int)
    requires
        0 <= x < 16,
    ensures
        ({
            let s = (2 * x - 15) * (2 * x - 15);
            s == 1 || s == 9 || s == 25 || s == 49 || s == 81 || s == 121 || s == 169 || s == 225
        }),
{
    let d = 2 * x - 15;
    assert(d * d == 4 * (x * x) - 60 * x + 225) by (nonlinear_arith)
        requires
            d == 2 * x - 15,
    ;
    assert(0 <= x * x <= 225) by (nonlinear_arith)
        requires
            0 <= x < 16,
    ;
    if x == 0 {
        assert(x * x == 0);
    } else if x == 1 {
        assert(x * x == 1);
    } else if x == 2 {
        assert(x * x == 4);
    } else if x == 3 {
        assert(x * x == 9);
    } else if x == 4 {
        assert(x * x == 16);
    } else if x == 5 {
        assert(x * x == 25);
    } else if x == 6 {
        assert(x * x == 36);
    } else if x == 7 {
        assert(x * x == 49);
    } else if x == 8 {
        assert(x * x == 64);
    } else if x == 9 {
        assert(x * x == 81);
    } else if x == 10 {
        assert(x * x == 100);
    } else if x == 11 {
        assert(x * x == 121);
    } else if x == 12 {
        assert(x * x == 144);
    } else if x == 13 {
        assert(x * x == 169);
    } else if x == 14 {
        assert(x * x == 196);
    } else {
        assert(x * x == 225);
    }
}

/// The pixel at column `x`, row `y`.
fn pixel_at(x: u32, y: u32) -> (p: (u8, u8, u8, u8))
    requires
        x < 16,
        y < 16,
    ensures
        p == pixel(x as int, y as int),
{
    let dx: i32 = 2 * (x as i32) - 15;
    let dy: i32 = 2 * (y as i32) - 15;
    assert(0 <= dx * dx <= 225 && 0 <= dy * dy <= 225) by (nonlinear_arith)
        requires
            -15 <= dx <= 15,
            -15 <= dy <= 15,
    ;
    let spread: i32 = dx * dx + dy * dy;
    if spread < 169 {
        let alpha: u8 = if spread <= 100 {
            255
        } else if spread == 106 {
            229
        } else if spread == 122 {
            166
        } else if spread == 130 {
            135
        } else if spread == 146 {
            77
        } else if spread == 162 {
            23
        } else {
            0
        };
        (50, 120, 255, alpha)
    } else {
        (0, 0, 0, 0)
    }
}

/// Describes the tray entry: its tooltip and its icon.
pub fn setup_tray() -> (tray: TraySetup)
    ensures
        tray.tooltip@ == "Vibe Keys Server"@,
        tray.icon_width == ICON_SIDE,
        tray.icon_height == ICON_SIDE,
        tray.icon_rgba@ == icon(),
{
    let mut data: Vec<u8> = Vec::new();
    let mut y: u32 = 0;
    while y < 16
        invariant
            y <= 16,
            data@.len() == 64 * y,
            forall|k: int| 0 <= k < data@.len() ==> data@[k] == icon_byte(k),
        decreases 16 - y,
    {
        let mut x: u32 = 0;
        while x < 16
            invariant
                y < 16,
                x <= 16,
                data@.len() == 64 * y + 4 * x,
                forall|k: int| 0 <= k < data@.len() ==> data@[k] == icon_byte(k),
            decreases 16 - x,
        {
            let (red, green, blue, alpha) = pixel_at(x, y);
            let ghost base = data@.len() as int;
            assert(base / 4 == 16 * y + x && base % 4 == 0);
            assert((base + 1) / 4 == 16 * y + x && (base + 1) % 4 == 1);
            assert((base + 2) / 4 == 16 * y + x && (base + 2) % 4 == 2);
            assert((base + 3) / 4 == 16 * y + x && (base + 3) % 4 == 3);
            assert((16 * y + x) % 16 == x && (16 * y + x) / 16 == y);
            data.push(red);
            data.push(green);
            data.push(blue);
            data.push(alpha);
            x += 1;
        }
        y += 1;
    }
    assert(data@ =~= icon());
    TraySetup {
        tooltip: String::from_str("Vibe Keys Server"),
        icon_width: ICON_SIDE,
        icon_height: ICON_SIDE,
        icon_rgba: data,
    }
}

} // verus!
