//! Tray icon composition: the status badge on the base icon.
//!
//! Icons are rows of pixels of four bytes: red, green, blue and opacity.

use vstd::prelude::*;

use crate::tray_menu::Icon;

verus! {

/// A colour.
#[derive(Copy, Clone, Debug, PartialEq, Eq, Structural)]
pub struct Rgb {
    pub red: u8,
    pub green: u8,
    pub blue: u8,
}

/// The badge of a daemon that is coming up.
pub open spec fn orange() -> Rgb {
    Rgb { red: 0xFF, green: 0x9F, blue: 0x0A }
}

/// The badge of a daemon that runs over USB.
pub open spec fn green() -> Rgb {
    Rgb { red: 0x30, green: 0xD1, blue: 0x58 }
}

/// The badge of a daemon that runs in simulation.
pub open spec fn blue() -> Rgb {
    Rgb { red: 0x0A, green: 0x84, blue: 0xFF }
}

/// The badge of a crashed daemon.
pub open spec fn red() -> Rgb {
    Rgb { red: 0xFF, green: 0x45, blue: 0x3A }
}

/// How the badge covers one pixel.
#[derive(Copy, Clone, Debug, PartialEq, Eq, Structural)]
pub struct DotPixel {
    /// How much of the pixel the disc covers: 0 for nothing, 255 for all of it.
    pub disc: u8,
    /// How much of its opacity the ring around the disc leaves it: 0 for none, 255 for all.
    pub keep: u8,
}

impl DotPixel {
    /// The badge leaves the pixel as it is.
    pub open spec fn blank(self) -> bool {
        self.disc == 0 && self.keep == 255
    }
}

/// The channel of a colour; 0 is red, 1 green and 2 blue.
pub open spec fn channel(color: Rgb, c: int) -> u8 {
    if c == 0 {
        color.red
    } else if c == 1 {
        color.green
    } else {
        color.blue
    }
}

/// A colour byte under a disc of the given colour.
pub open spec fn over(color: u8, under: u8, disc: u8) -> int {
    (color * disc + under * (255 - disc)) / 255
}

/// An opacity byte under a disc and a ring.
pub open spec fn opacity(under: u8, dot: DotPixel) -> int {
    ((dot.disc + (under * (255 - dot.disc)) / 255) * dot.keep) / 255
}

/// The byte at position `k` of the icon with the badge.
pub open spec fn dotted(base: Seq<u8>, dots: Seq<DotPixel>, color: Rgb, k: int) -> int {
    let pixel = k / 4;
    if pixel >= dots.len() {
        base[k] as int
    } else if k % 4 == 3 {
        opacity(base[k], dots[pixel])
    } else {
        over(channel(color, k % 4), base[k], dots[pixel].disc)
    }
}

/// Every pixel that the badge touches lies in the icon.
pub open spec fn fits(base: Seq<u8>, dots: Seq<DotPixel>) -> bool {
    forall|i: int| 0 <= i < dots.len() && !(#[trigger] dots[i]).blank() ==> 4 * i + 3 < base.len()
}

/// Tells whether every pixel that the badge touches lies in the icon.
pub fn dots_fit(base: &Vec<u8>, dots: &Vec<DotPixel>) -> (r: bool)
    ensures
        r == fits(base@, dots@),
{
    let whole: usize = base.len() / 4;
    let mut i: usize = whole;
    while i < dots.len()
        invariant
            whole == base.len() / 4,
            whole <= i,
            forall|j: int| whole <= j < i && j < dots.len() ==> (#[trigger] dots@[j]).blank(),
        decreases dots.len() - i,
    {
        let dot: DotPixel = dots[i];
        if dot.disc != 0 || dot.keep != 255 {
            assert(!dots@[i as int].blank());
            return false;
        }
        i = i + 1;
    }
    assert forall|j: int| 0 <= j < dots@.len() && !(#[trigger] dots@[j]).blank() implies 4 * j + 3
        < base@.len() by {
        if j >= whole {
            assert(dots@[j].blank());
        }
    }
    true
}

/// The formulas stay in the range of a byte, and a blank dot changes nothing.
proof fn lemma_bytes(color: u8, under: u8, dot: DotPixel)
    ensures
        0 <= over(color, under, dot.disc) <= 255,
        0 <= color * dot.disc + under * (255 - dot.disc) <= 65025,
        0 <= under * (255 - dot.disc) <= 65025,
        0 <= (under * (255 - dot.disc)) / 255 <= 255 - dot.disc,
        0 <= (dot.disc + (under * (255 - dot.disc)) / 255) * dot.keep <= 65025,
        0 <= opacity(under, dot) <= 255,
        dot.disc == 0 ==> over(color, under, dot.disc) == under,
        dot.disc == 255 ==> over(color, under, dot.disc) == color,
        dot.blank() ==> opacity(under, dot) == under,
{
    let a = dot.disc as int;
    let inv = 255 - a;
    let c = color as int;
    let u = under as int;
    assert(0 <= c * a <= 255 * a && 0 <= u * inv <= 255 * inv) by (nonlinear_arith)
        requires
            0 <= c <= 255,
            0 <= u <= 255,
            0 <= a <= 255,
            inv == 255 - a,
    ;
    let covered = a + (u * inv) / 255;
    let keep = dot.keep as int;
    assert(0 <= covered * keep <= 255 * 255) by (nonlinear_arith)
        requires
            0 <= covered <= 255,
            0 <= keep <= 255,
    ;
    if a == 0 {
        assert(c * a == 0 && u * inv == 255 * u) by (nonlinear_arith)
            requires
                a == 0,
                inv == 255,
        ;
        assert((255 * u) / 255 == u);
        if keep == 255 {
            assert(covered * keep == 255 * u) by (nonlinear_arith)
                requires
                    covered == u,
                    keep == 255,
            ;
        }
    }
}

/// Puts a byte under a disc.
fn blend(color: u8, under: u8, dot: DotPixel) -> (r: u8)
    ensures
        r == over(color, under, dot.disc),
{
    proof {
        lemma_bytes(color, under, dot);
        assert(0 <= color * dot.disc) by (nonlinear_arith)
            requires
                0 <= color,
                0 <= dot.disc,
        ;
    }
    let shown: u32 = color as u32 * dot.disc as u32;
    let through: u32 = under as u32 * (255 - dot.disc as u32);
    ((shown + through) / 255) as u8
}

/// Puts an opacity byte under a disc and a ring.
fn fade(under: u8, dot: DotPixel) -> (r: u8)
    ensures
        r == opacity(under, dot),
{
    proof {
        lemma_bytes(0, under, dot);
    }
    let through: u32 = under as u32 * (255 - dot.disc as u32);
    let covered: u32 = dot.disc as u32 + through / 255;
    ((covered * dot.keep as u32) / 255) as u8
}

/// Composites a coloured status disc, and the ring of transparency around it, onto a copy of the
/// base icon. `dots` says, pixel by pixel, how the badge covers the icon.
pub fn compose_with_dot(base: &Vec<u8>, dots: &Vec<DotPixel>, color: Rgb) -> (r: Vec<u8>)
    requires
        fits(base@, dots@),
    ensures
        r.len() == base.len(),
        forall|k: int| 0 <= k < r.len() ==> #[trigger] r@[k] == dotted(base@, dots@, color, k),
{
    let mut pixels: Vec<u8> = Vec::new();
    let mut k: usize = 0;
    while k < base.len()
        invariant
            k <= base.len(),
            pixels.len() == k,
            forall|j: int|
                0 <= j < k ==> #[trigger] pixels@[j] == dotted(base@, dots@, color, j),
        decreases base.len() - k,
    {
        let pixel: usize = k / 4;
        let under: u8 = base[k];
        let byte: u8 = if pixel >= dots.len() {
            under
        } else {
            let dot: DotPixel = dots[pixel];
            match k % 4 {
                0 => blend(color.red, under, dot),
                1 => blend(color.green, under, dot),
                2 => blend(color.blue, under, dot),
                _ => fade(under, dot),
            }
        };
        pixels.push(byte);
        k = k + 1;
    }
    pixels
}

/// The pre-rendered tray icons.
pub struct IconCache {
    pub idle: Vec<u8>,
    pub starting: Vec<u8>,
    pub running_usb: Vec<u8>,
    pub running_sim: Vec<u8>,
    pub crashed: Vec<u8>,
}

/// `icon` is the base icon with a badge of the given colour.
pub open spec fn badged(icon: Seq<u8>, base: Seq<u8>, dots: Seq<DotPixel>, color: Rgb) -> bool {
    &&& icon.len() == base.len()
    &&& forall|k: int| 0 <= k < icon.len() ==> #[trigger] icon[k] == dotted(base, dots, color, k)
}

/// Renders the icons: the bare one for an idle daemon, and one with a badge for each other state.
pub fn build_icon_cache(base: &Vec<u8>, dots: &Vec<DotPixel>) -> (r: IconCache)
    requires
        fits(base@, dots@),
    ensures
        r.idle@ == base@,
        badged(r.starting@, base@, dots@, orange()),
        badged(r.running_usb@, base@, dots@, green()),
        badged(r.running_sim@, base@, dots@, blue()),
        badged(r.crashed@, base@, dots@, red()),
{
    IconCache {
        idle: base.clone(),
        starting: compose_with_dot(base, dots, Rgb { red: 0xFF, green: 0x9F, blue: 0x0A }),
        running_usb: compose_with_dot(base, dots, Rgb { red: 0x30, green: 0xD1, blue: 0x58 }),
        running_sim: compose_with_dot(base, dots, Rgb { red: 0x0A, green: 0x84, blue: 0xFF }),
        crashed: compose_with_dot(base, dots, Rgb { red: 0xFF, green: 0x45, blue: 0x3A }),
    }
}

impl IconCache {
    /// The pixels of an icon.
    pub fn pixels(&self, icon: Icon) -> (r: &Vec<u8>)
        ensures
            *r == match icon {
                Icon::Idle => self.idle,
                Icon::Starting => self.starting,
                Icon::RunningUsb => self.running_usb,
                Icon::RunningSim => self.running_sim,
                Icon::Crashed => self.crashed,
            },
    {
        match icon {
            Icon::Idle => &self.idle,
            Icon::Starting => &self.starting,
            Icon::RunningUsb => &self.running_usb,
            Icon::RunningSim => &self.running_sim,
            Icon::Crashed => &self.crashed,
        }
    }
}

/// A pixel that the badge does not touch keeps its bytes; one that the disc covers wholly takes
/// its colour; one whose opacity the ring takes wholly is transparent.
pub proof fn law_badge(base: Seq<u8>, dots: Seq<DotPixel>, color: Rgb, k: int)
    requires
        0 <= k < base.len(),
        k / 4 < dots.len(),
    ensures
        ({
            let dot = dots[k / 4];
            let byte = dotted(base, dots, color, k);
            &&& 0 <= byte <= 255
            &&& dot.blank() ==> byte == base[k]
            &&& dot.disc == 255 && k % 4 != 3 ==> byte == channel(color, k % 4)
            &&& dot.disc == 255 && dot.keep == 255 && k % 4 == 3 ==> byte == 255
            &&& dot.keep == 0 && k % 4 == 3 ==> byte == 0
        }),
{
    lemma_bytes(channel(color, k % 4), base[k], dots[k / 4]);
}

/// Each state has its own colour.
pub proof fn law_colours()
    ensures
        orange().red == 0xFF && orange().green == 0x9F && orange().blue == 0x0A,
        green().red == 0x30 && green().green == 0xD1 && green().blue == 0x58,
        blue().red == 0x0A && blue().green == 0x84 && blue().blue == 0xFF,
        red().red == 0xFF && red().green == 0x45 && red().blue == 0x3A,
{
}

/// The badge mixes its colour into a pixel by how much of it the disc covers, rounding down, and
/// adds to its opacity what the disc hides, of which the ring keeps its share; what lies beyond the
/// badge is as it was.
pub proof fn law_badge_mixes(base: Seq<u8>, dots: Seq<DotPixel>, color: Rgb, k: int)
    requires
        0 <= k < base.len(),
    ensures
        ({
            let byte = dotted(base, dots, color, k);
            let under = base[k] as int;
            let dot = dots[k / 4];
            let a = dot.disc as int;
            let ink = if k % 4 == 0 {
                color.red as int
            } else if k % 4 == 1 {
                color.green as int
            } else {
                color.blue as int
            };
            let covered = a + (under * (255 - a)) / 255;
            &&& k / 4 >= dots.len() ==> byte == under
            &&& k / 4 < dots.len() && k % 4 != 3 ==> 0 <= (ink * a + under * (255 - a)) - 255 * byte
                < 255
            &&& k / 4 < dots.len() && k % 4 == 3 ==> 0 <= covered * (dot.keep as int) - 255 * byte
                < 255
        }),
{
}

/// A badge fits where each of its pixels that changes anything has all its four bytes in the icon.
pub proof fn law_badge_fits(base: Seq<u8>, dots: Seq<DotPixel>)
    ensures
        fits(base, dots) <==> forall|i: int|
            0 <= i < dots.len() && 4 * i + 3 >= base.len() ==> (#[trigger] dots[i]).disc == 0
                && dots[i].keep == 255,
{
    if fits(base, dots) {
        assert forall|i: int| 0 <= i < dots.len() && 4 * i + 3 >= base.len() implies (
        #[trigger] dots[i]).disc == 0 && dots[i].keep == 255 by {
            assert(dots[i].blank());
        }
    }
}

/// An icon with a badge is the base icon byte for byte under the badge, and of its size.
pub proof fn law_badged(
    icon: Seq<u8>,
    base: Seq<u8>,
    dots: Seq<DotPixel>,
    color: Rgb,
    k: int,
)
    requires
        badged(icon, base, dots, color),
        0 <= k < base.len(),
    ensures
        icon.len() == base.len(),
        icon[k] == dotted(base, dots, color, k),
{
}

} // verus!
