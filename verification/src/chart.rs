//! The arithmetic core of the candlestick-chart pipeline: value-axis bounds
//! over a time series, terminal-cell-to-pixel sizing, allocation of the RGB
//! pixel buffer, and the final reinterpretation of the drawn buffer as a
//! structured image.
//!
//! Prices are plain integers (a fixed number of price ticks); the drawing
//! itself and the terminal image protocol are outside collaborators that
//! receive the planned buffer and bounds.

use vstd::math::{max, min};
use vstd::pervasive::unreached;
use vstd::prelude::*;

verus! {

/// One point of an instrument's time series: a timestamp and the four
/// prices of the interval, in integer price ticks.
#[derive(Clone, Copy, PartialEq, Eq, Structural, Debug)]
pub struct OhlcPoint {
    /// The point's timestamp.
    pub time: i64,
    /// Opening price.
    pub open: i64,
    /// Highest price.
    pub high: i64,
    /// Lowest price.
    pub low: i64,
    /// Closing price.
    pub close: i64,
}

/// The smallest of a point's four prices.
pub open spec fn point_low(p: OhlcPoint) -> int {
    min(min(p.open as int, p.high as int), min(p.low as int, p.close as int))
}

/// The largest of a point's four prices.
pub open spec fn point_high(p: OhlcPoint) -> int {
    max(max(p.open as int, p.high as int), max(p.low as int, p.close as int))
}

/// The smallest price across all of open/high/low/close across all points
/// of a non-empty series (0 for an empty one, where no bound exists).
pub open spec fn series_low(s: Seq<OhlcPoint>) -> int
    decreases s.len(),
{
    if s.len() == 0 {
        0
    } else if s.len() == 1 {
        point_low(s[0])
    } else {
        min(series_low(s.drop_last()), point_low(s.last()))
    }
}

/// The largest price across all of open/high/low/close across all points
/// of a non-empty series (0 for an empty one, where no bound exists).
pub open spec fn series_high(s: Seq<OhlcPoint>) -> int
    decreases s.len(),
{
    if s.len() == 0 {
        0
    } else if s.len() == 1 {
        point_high(s[0])
    } else {
        max(series_high(s.drop_last()), point_high(s.last()))
    }
}

/// On a non-empty series the lower value-axis bound never exceeds the upper
/// one.
pub proof fn lemma_series_low_le_high(s: Seq<OhlcPoint>)
    requires
        s.len() > 0,
    ensures
        series_low(s) <= series_high(s),
    decreases s.len(),
{
    if s.len() > 1 {
        lemma_series_low_le_high(s.drop_last());
    }
}

fn point_low_exec(p: OhlcPoint) -> (r: i64)
    ensures
        r == point_low(p),
{
    let a = if p.open <= p.high {
        p.open
    } else {
        p.high
    };
    let b = if p.low <= p.close {
        p.low
    } else {
        p.close
    };
    if a <= b {
        a
    } else {
        b
    }
}

fn point_high_exec(p: OhlcPoint) -> (r: i64)
    ensures
        r == point_high(p),
{
    let a = if p.open >= p.high {
        p.open
    } else {
        p.high
    };
    let b = if p.low >= p.close {
        p.low
    } else {
        p.close
    };
    if a >= b {
        a
    } else {
        b
    }
}

/// The value-axis bounds of a series: the minimum and maximum across all of
/// open/high/low/close across all points, tracked incrementally in a single
/// pass. An empty series has no bounds.
pub fn chart_bounds(points: &Vec<OhlcPoint>) -> (r: Option<(i64, i64)>)
    ensures
        r is Some <==> points@.len() > 0,
        r matches Some(b) ==> b.0 == series_low(points@) && b.1 == series_high(points@) && b.0
            <= b.1,
{
    if points.len() == 0 {
        return None;
    }
    let mut lo = point_low_exec(points[0]);
    let mut hi = point_high_exec(points[0]);
    let mut i: usize = 1;
    while i < points.len()
        invariant
            1 <= i <= points@.len(),
            lo == series_low(points@.take(i as int)),
            hi == series_high(points@.take(i as int)),
        decreases points@.len() - i,
    {
        let plo = point_low_exec(points[i]);
        let phi = point_high_exec(points[i]);
        proof {
            assert(points@.take(i + 1).drop_last() =~= points@.take(i as int));
            assert(points@.take(i + 1).last() == points@[i as int]);
        }
        if plo < lo {
            lo = plo;
        }
        if phi > hi {
            hi = phi;
        }
        i += 1;
    }
    proof {
        assert(points@.take(points@.len() as int) =~= points@);
        lemma_series_low_le_high(points@);
    }
    Some((lo, hi))
}

/// A region of the terminal given in character cells.
#[derive(Clone, Copy, PartialEq, Eq, Structural, Debug)]
pub struct CellRect {
    /// Width in character cells.
    pub width: u16,
    /// Height in character cells.
    pub height: u16,
}

/// A region's size in pixels: each terminal cell is `font_size.0` pixels
/// wide and `font_size.1` pixels tall.
pub fn cell_rect_to_pixel_size(rect: &CellRect, font_size: (u16, u16)) -> (r: (u32, u32))
    ensures
        r.0 == rect.width as int * font_size.0 as int,
        r.1 == rect.height as int * font_size.1 as int,
{
    proof {
        let w = rect.width as int;
        let fw = font_size.0 as int;
        let h = rect.height as int;
        let fh = font_size.1 as int;
        assert(w * fw < 0x1_0000_0000) by (nonlinear_arith)
            requires
                0 <= w < 0x1_0000,
                0 <= fw < 0x1_0000;
        assert(h * fh < 0x1_0000_0000) by (nonlinear_arith)
            requires
                0 <= h < 0x1_0000,
                0 <= fh < 0x1_0000;
    }
    (rect.width as u32 * font_size.0 as u32, rect.height as u32 * font_size.1 as u32)
}

/// A prepared chart render: the pixel size of the target region, the
/// value-axis bounds of the series, and the zero-initialized RGB pixel
/// buffer (3 bytes per pixel) the drawing backend will draw into.
pub struct ChartPlan {
    /// Target width in pixels.
    pub width_px: u32,
    /// Target height in pixels.
    pub height_px: u32,
    /// Lower value-axis bound, in price ticks.
    pub y_min: i64,
    /// Upper value-axis bound, in price ticks.
    pub y_max: i64,
    /// The RGB pixel buffer, row-major, 3 bytes per pixel.
    pub buffer: Vec<u8>,
}

impl ChartPlan {
    /// A plan is well-formed when its target region is non-degenerate and
    /// its buffer holds exactly 3 bytes for each pixel.
    pub open spec fn wf(&self) -> bool {
        &&& self.width_px > 0
        &&& self.height_px > 0
        &&& self.y_min <= self.y_max
        &&& self.buffer@.len() == 3 * self.width_px as int * self.height_px as int
    }
}

/// Whether a chart can be rendered at all: the series is non-empty, the
/// target region and font are non-degenerate, and the pixel buffer fits in
/// memory.
pub open spec fn chart_viable(points: Seq<OhlcPoint>, rect: CellRect, font_size: (u16, u16)) -> bool {
    &&& points.len() > 0
    &&& rect.width > 0
    &&& rect.height > 0
    &&& font_size.0 > 0
    &&& font_size.1 > 0
    &&& 3 * (rect.width as int * font_size.0 as int) * (rect.height as int * font_size.1 as int)
        <= usize::MAX
}

/// An instrument whose time series is empty yields no chart at all:
/// no value-axis bounds exist and no render can be planned.
pub proof fn lemma_empty_series_not_viable(rect: CellRect, font_size: (u16, u16))
    ensures
        !chart_viable(Seq::<OhlcPoint>::empty(), rect, font_size),
{
}

/// Prepare a chart render for a series in a terminal region: compute the
/// pixel size and the value-axis bounds and allocate the zeroed RGB buffer.
/// An empty series or a degenerate region yields no plan.
pub fn plan_chart(points: &Vec<OhlcPoint>, rect: &CellRect, font_size: (u16, u16)) -> (r: Option<
    ChartPlan,
>)
    ensures
        r is Some <==> chart_viable(points@, *rect, font_size),
        r matches Some(p) ==> {
            &&& p.wf()
            &&& p.width_px == rect.width as int * font_size.0 as int
            &&& p.height_px == rect.height as int * font_size.1 as int
            &&& p.y_min == series_low(points@)
            &&& p.y_max == series_high(points@)
            &&& forall|i: int| 0 <= i < p.buffer@.len() ==> p.buffer@[i] == 0
        },
{
    if points.len() == 0 {
        return None;
    }
    let (width_px, height_px) = cell_rect_to_pixel_size(rect, font_size);
    if width_px == 0 || height_px == 0 {
        proof {
            let w = rect.width as int;
            let fw = font_size.0 as int;
            let h = rect.height as int;
            let fh = font_size.1 as int;
            assert(w * fw == 0 ==> w == 0 || fw == 0) by (nonlinear_arith);
            assert(h * fh == 0 ==> h == 0 || fh == 0) by (nonlinear_arith);
        }
        return None;
    }
    proof {
        let w = width_px as int;
        let h = height_px as int;
        assert(3 * w * h < 0x3_0000_0000_0000_0000) by (nonlinear_arith)
            requires
                0 <= w < 0x1_0000_0000,
                0 <= h < 0x1_0000_0000;
    }
    let total3: u128 = 3u128 * (width_px as u128) * (height_px as u128);
    if total3 > usize::MAX as u128 {
        return None;
    }
    let n: usize = total3 as usize;
    let mut buffer: Vec<u8> = Vec::new();
    let mut i: usize = 0;
    while i < n
        invariant
            i <= n,
            buffer@.len() == i,
            forall|j: int| 0 <= j < i ==> buffer@[j] == 0,
        decreases n - i,
    {
        buffer.push(0);
        i += 1;
    }
    let (y_min, y_max) = match chart_bounds(points) {
        Some(b) => b,
        None => {
            return None;
        },
    };
    Some(ChartPlan { width_px, height_px, y_min, y_max, buffer })
}


/// The structured RGB image a drawn chart buffer is reinterpreted as,
/// carried opaquely on its way to the terminal image protocol. The held
/// `image::RgbImage` carries a trait-bounded type parameter that Verus
/// refuses to declare, so the whole struct is opaque to Verus.
#[verifier::external_body]
pub struct ChartImage {
    /// The structured image, for the terminal image protocol to consume.
    pub inner: image::RgbImage,
}

/// The raw bytes a chart image holds, row-major RGB.
pub uninterp spec fn chart_image_bytes(img: ChartImage) -> Seq<u8>;

/// The pixel dimensions a chart image carries, width then height.
pub uninterp spec fn chart_image_dims(img: ChartImage) -> (u32, u32);

/// Relies on `image::ImageBuffer::from_raw`: for an RGB image (3 channels
/// of one byte per pixel) it yields an image exactly when 3 * width can be
/// computed in `usize`, 3 * width * height can too, and the container holds
/// at least that many bytes; the image then stores the given container and
/// dimensions unchanged.
#[verifier::external_body]
fn rgb_image_from_raw(width: u32, height: u32, buf: Vec<u8>) -> (r: Option<ChartImage>)
    ensures
        r is Some <==> {
            &&& 3 * width as int <= usize::MAX
            &&& 3 * width as int * height as int <= usize::MAX
            &&& 3 * width as int * height as int <= buf@.len()
        },
        r matches Some(img) ==> chart_image_bytes(img) == buf@ && chart_image_dims(img) == (
            width,
            height,
        ),
{
    match image::ImageBuffer::from_raw(width, height, buf) {
        Some(inner) => Some(ChartImage { inner }),
        None => None,
    }
}

/// Reinterpret the raw bytes of a drawn, well-formed chart plan as a
/// structured RGB image. Well-formedness makes the buffer exactly large
/// enough, so the reinterpretation always succeeds, and the image holds
/// exactly the plan's bytes at the plan's pixel size.
pub fn chart_image(plan: ChartPlan) -> (img: ChartImage)
    requires
        plan.wf(),
    ensures
        chart_image_bytes(img) == plan.buffer@,
        chart_image_dims(img) == (plan.width_px, plan.height_px),
{
    let ChartPlan { width_px, height_px, y_min: _, y_max: _, buffer } = plan;
    proof {
        vstd::std_specs::vec::axiom_spec_len(&buffer);
        let w = width_px as int;
        let h = height_px as int;
        assert(3 * w <= 3 * w * h) by (nonlinear_arith)
            requires
                w >= 0,
                h >= 1;
    }
    match rgb_image_from_raw(width_px, height_px, buffer) {
        Some(img) => img,
        None => unreached(),
    }
}

} // verus!
