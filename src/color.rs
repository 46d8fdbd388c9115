use vstd::prelude::*;

verus! {

/// One of the bounds below stated in thousandths: `1000` stands for `1.0`.
pub const PER_MILLE: u16 = 1000;

/// An 8-bit RGB colour.
#[derive(Clone, Copy, Debug, PartialEq, Eq, Structural)]
pub struct Rgb {
    pub r: u8,
    pub g: u8,
    pub b: u8,
}

/// One height band of the colour table, with its bounds in thousandths.
#[derive(Clone, Copy, Debug, PartialEq, Eq, Structural)]
pub struct ColorRegion {
    /// Upper bound of the band, as a fraction of the maximum height, in thousandths.
    pub max_height_milli: u16,
    /// Colour at the band's top.
    pub color: Rgb,
    /// Width of the blend from the band below, as a fraction of the band, in thousandths.
    pub blend_milli: u16,
}

/// A usable colour table: not empty, bounds strictly increasing, the last bound at least
/// `1.0`, and every blend width in `(0, 1]`.
pub open spec fn regions_wf(regions: Seq<ColorRegion>) -> bool {
    &&& regions.len() >= 1
    &&& forall|i: int, j: int|
        0 <= i < j < regions.len() ==> #[trigger] regions[i].max_height_milli
            < #[trigger] regions[j].max_height_milli
    &&& regions.last().max_height_milli >= PER_MILLE
    &&& forall|i: int|
        0 <= i < regions.len() ==> 0 < #[trigger] regions[i].blend_milli <= PER_MILLE
}

/// The terrain's colour table, from shore sand up to snow.
pub open spec fn terrain_regions() -> Seq<ColorRegion> {
    seq![
        ColorRegion { max_height_milli: 93, color: Rgb { r: 201, g: 178, b: 99 }, blend_milli: 600 },
        ColorRegion { max_height_milli: 164, color: Rgb { r: 164, g: 155, b: 98 }, blend_milli: 600 },
        ColorRegion { max_height_milli: 243, color: Rgb { r: 164, g: 155, b: 98 }, blend_milli: 600 },
        ColorRegion { max_height_milli: 374, color: Rgb { r: 120, g: 127, b: 160 }, blend_milli: 1000 },
        ColorRegion { max_height_milli: 571, color: Rgb { r: 90, g: 91, b: 98 }, blend_milli: 1000 },
        ColorRegion { max_height_milli: 846, color: Rgb { r: 193, g: 198, b: 214 }, blend_milli: 1000 },
        ColorRegion { max_height_milli: 1000, color: Rgb { r: 235, g: 236, b: 240 }, blend_milli: 1000 },
    ]
}

/// The terrain's colour table; it is well formed.
pub fn color_regions() -> (r: Vec<ColorRegion>)
    ensures
        r@ == terrain_regions(),
        regions_wf(r@),
{
    let r = vec![
        ColorRegion { max_height_milli: 93, color: Rgb { r: 201, g: 178, b: 99 }, blend_milli: 600 },
        ColorRegion { max_height_milli: 164, color: Rgb { r: 164, g: 155, b: 98 }, blend_milli: 600 },
        ColorRegion { max_height_milli: 243, color: Rgb { r: 164, g: 155, b: 98 }, blend_milli: 600 },
        ColorRegion { max_height_milli: 374, color: Rgb { r: 120, g: 127, b: 160 }, blend_milli: 1000 },
        ColorRegion { max_height_milli: 571, color: Rgb { r: 90, g: 91, b: 98 }, blend_milli: 1000 },
        ColorRegion { max_height_milli: 846, color: Rgb { r: 193, g: 198, b: 214 }, blend_milli: 1000 },
        ColorRegion { max_height_milli: 1000, color: Rgb { r: 235, g: 236, b: 240 }, blend_milli: 1000 },
    ];
    assert(r@ =~= terrain_regions());
    r
}

/// Whether a colour table is usable, decided on the table itself.
pub fn check_regions(regions: &Vec<ColorRegion>) -> (r: bool)
    ensures
        r == regions_wf(regions@),
{
    let n = regions.len();
    if n == 0 {
        return false;
    }
    let mut i: usize = 0;
    while i < n
        invariant
            n == regions@.len(),
            n >= 1,
            i <= n,
            forall|a: int, b: int|
                0 <= a < b < i ==> #[trigger] regions@[a].max_height_milli
                    < #[trigger] regions@[b].max_height_milli,
            forall|a: int| 0 <= a < i ==> 0 < #[trigger] regions@[a].blend_milli <= PER_MILLE,
        decreases n - i,
    {
        let region = regions[i];
        if region.blend_milli == 0 || region.blend_milli > PER_MILLE {
            return false;
        }
        if i > 0 && regions[i - 1].max_height_milli >= region.max_height_milli {
            return false;
        }
        proof {
            assert forall|a: int, b: int|
                0 <= a < b < i + 1 implies #[trigger] regions@[a].max_height_milli
                < #[trigger] regions@[b].max_height_milli by {
                if b == i as int && a < i - 1 {
                    assert(regions@[a].max_height_milli < regions@[i - 1].max_height_milli);
                }
            }
        }
        i = i + 1;
    }
    regions[n - 1].max_height_milli >= PER_MILLE
}

} // verus!
