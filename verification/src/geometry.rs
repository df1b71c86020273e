//! Geometric transform arithmetic: aspect-ratio center crop and bounded
//! (downscale-only) resize, on pixel dimensions.
//!
//! All decisions are made on exact integer arithmetic: the current aspect
//! ratio of an image is the rational `width / height`, compared against the
//! target ratio by cross multiplication. Crop must precede resize: the
//! pipeline preserves that order.

use vstd::prelude::*;
use crate::error::PipelineError;
use crate::ratio::Ratio;

verus! {

/// Pixel dimensions of a raster image.
#[derive(Clone, Copy, Debug, PartialEq, Eq, Structural)]
pub struct Dims {
    pub width: u32,
    pub height: u32,
}

impl Dims {
    /// Both dimensions are at least one pixel.
    pub open spec fn valid(self) -> bool {
        self.width >= 1 && self.height >= 1
    }

    /// The exact aspect ratio `width / height` of these dimensions.
    pub open spec fn spec_ratio(self) -> Ratio {
        Ratio { num: self.width, den: self.height }
    }
}

/// The sub-rectangle retained by a crop: top-left offset and size.
#[derive(Clone, Copy, Debug, PartialEq, Eq, Structural)]
pub struct CropRect {
    pub x: u32,
    pub y: u32,
    pub width: u32,
    pub height: u32,
}

impl CropRect {
    /// The rectangle lies entirely inside an image of dimensions `d`.
    pub open spec fn within(self, d: Dims) -> bool {
        self.x + self.width <= d.width && self.y + self.height <= d.height
    }

    /// The dimensions of the rectangle itself.
    pub open spec fn dims(self) -> Dims {
        Dims { width: self.width, height: self.height }
    }
}

/// `floor(h * t)`: the widest width not exceeding ratio `t` at height `h`.
pub open spec fn spec_width_for_height(h: u32, t: Ratio) -> int {
    (h * t.num) / (t.den as int)
}

/// `floor(w / t)`: the tallest height not exceeding width `w` at ratio `t`.
pub open spec fn spec_height_for_width(w: u32, t: Ratio) -> int {
    (w * t.den) / (t.num as int)
}

/// The crop rectangle that takes dimensions `d` to target ratio `t`:
/// anchored on height when the target is narrower than the source, on width
/// when it is wider, centered on the cropped axis, and a no-op when the
/// ratios are exactly equal. Fails when the cropped axis would become empty.
pub open spec fn spec_crop(d: Dims, t: Ratio) -> Result<CropRect, PipelineError>
    recommends
        d.valid(),
        t.valid(),
{
    if t.spec_lt(d.spec_ratio()) {
        // Source too wide: anchor on height, center horizontally.
        let nw = spec_width_for_height(d.height, t);
        if nw == 0 {
            Err(PipelineError::InvalidGeometry)
        } else {
            Ok(CropRect {
                x: (((d.width - nw) / 2) as u32),
                y: 0,
                width: nw as u32,
                height: d.height,
            })
        }
    } else if d.spec_ratio().spec_lt(t) {
        // Source too narrow: anchor on width, center vertically.
        let nh = spec_height_for_width(d.width, t);
        if nh == 0 {
            Err(PipelineError::InvalidGeometry)
        } else {
            Ok(CropRect {
                x: 0,
                y: (((d.height - nh) / 2) as u32),
                width: d.width,
                height: nh as u32,
            })
        }
    } else {
        // Ratios equal: no-op.
        Ok(CropRect { x: 0, y: 0, width: d.width, height: d.height })
    }
}

/// Computes the centered crop rectangle for target ratio `target` on an
/// image of dimensions `d`, whose exact current ratio is `current`.
pub fn crop_rect_for(d: Dims, current: Ratio, target: Ratio) -> (r: Result<
    CropRect,
    PipelineError,
>)
    requires
        d.valid(),
        target.valid(),
        current == d.spec_ratio(),
    ensures
        r == spec_crop(d, target),
        r matches Ok(rect) ==> rect.within(d) && rect.dims().valid(),
        // The offset on each axis is half of what was cut from that axis.
        r matches Ok(rect) ==> rect.x == (d.width - rect.width) / 2 && rect.y == (d.height
            - rect.height) / 2,
        // An exactly matching ratio is a no-op.
        target.spec_eq_ratio(current) ==> r == Ok::<CropRect, PipelineError>(
            CropRect { x: 0, y: 0, width: d.width, height: d.height },
        ),
        r is Err <==> spec_crop(d, target) is Err,
{
    if target.lt(&current) {
        proof {
            crate::ratio::lemma_cross_products_fit(d.spec_ratio(), target);
        }
        let hn: u64 = (d.height as u64) * (target.num as u64);
        let td: u64 = target.den as u64;
        let nw64: u64 = hn / td;
        proof {
            assert(hn < (d.width as u64) * td) by (nonlinear_arith)
                requires
                    hn == (d.height as int) * (target.num as int),
                    (target.num as int) * (d.height as int) < (d.width as int) * (target.den
                        as int),
                    td == target.den as int,
            ;
            assert(nw64 < d.width as u64) by (nonlinear_arith)
                requires
                    nw64 == hn as int / td as int,
                    hn < (d.width as u64) * td,
                    td >= 1,
            ;
        }
        let nw: u32 = nw64 as u32;
        if nw == 0 {
            Err(PipelineError::InvalidGeometry)
        } else {
            Ok(CropRect { x: (d.width - nw) / 2, y: 0, width: nw, height: d.height })
        }
    } else if current.lt(&target) {
        proof {
            crate::ratio::lemma_cross_products_fit(d.spec_ratio(), target);
        }
        let wd: u64 = (d.width as u64) * (target.den as u64);
        let tn: u64 = target.num as u64;
        let nh64: u64 = wd / tn;
        proof {
            assert(wd < (d.height as u64) * tn) by (nonlinear_arith)
                requires
                    wd == (d.width as int) * (target.den as int),
                    (d.width as int) * (target.den as int) < (target.num as int) * (d.height
                        as int),
                    tn == target.num as int,
            ;
            assert(nh64 < d.height as u64) by (nonlinear_arith)
                requires
                    nh64 == wd as int / tn as int,
                    wd < (d.height as u64) * tn,
                    tn >= 1,
            ;
        }
        let nh: u32 = nh64 as u32;
        if nh == 0 {
            Err(PipelineError::InvalidGeometry)
        } else {
            Ok(CropRect { x: 0, y: (d.height - nh) / 2, width: d.width, height: nh })
        }
    } else {
        Ok(CropRect { x: 0, y: 0, width: d.width, height: d.height })
    }
}

/// Crop anchoring: when the ratios differ, the anchor dimension is kept
/// unchanged, and the cropped dimension matches the target ratio to within
/// one pixel (it is the floor of the exact rational value).
pub proof fn lemma_crop_anchoring(d: Dims, t: Ratio)
    requires
        d.valid(),
        t.valid(),
        !t.spec_eq_ratio(d.spec_ratio()),
        spec_crop(d, t) is Ok,
    ensures
        t.spec_lt(d.spec_ratio()) ==> {
            let rect = spec_crop(d, t)->Ok_0;
            &&& rect.height == d.height
            &&& t.den * rect.width <= t.num * d.height < t.den * (rect.width + 1)
        },
        d.spec_ratio().spec_lt(t) ==> {
            let rect = spec_crop(d, t)->Ok_0;
            &&& rect.width == d.width
            &&& t.num * rect.height <= t.den * d.width < t.num * (rect.height + 1)
        },
{
    if t.spec_lt(d.spec_ratio()) {
        let nw = spec_width_for_height(d.height, t);
        assert(nw < d.width && t.den * nw <= t.num * d.height < t.den * (nw + 1))
            by (nonlinear_arith)
            requires
                nw == ((d.height as int) * (t.num as int)) / (t.den as int),
                (t.num as int) * (d.height as int) < (d.width as int) * (t.den as int),
                t.den >= 1,
                d.height >= 0,
                t.num >= 0,
        ;
    } else {
        let nh = spec_height_for_width(d.width, t);
        assert(nh < d.height && t.num * nh <= t.den * d.width < t.num * (nh + 1))
            by (nonlinear_arith)
            requires
                nh == ((d.width as int) * (t.den as int)) / (t.num as int),
                (d.width as int) * (t.den as int) < (t.num as int) * (d.height as int),
                t.num >= 1,
                d.width >= 0,
                t.den >= 0,
        ;
    }
}

/// Round-half-up of `a / b`.
pub open spec fn spec_round_div(a: int, b: int) -> int
    recommends
        b >= 1,
{
    (a + b / 2) / b
}

/// Dimensions after the bounded resize: unchanged when `width <= max_width`
/// (never upscale), otherwise exactly `max_width` wide and proportionally
/// tall, rounded to the nearest pixel. Fails when the height would round
/// down to zero.
pub open spec fn spec_resize(d: Dims, max_width: u32) -> Result<Dims, PipelineError>
    recommends
        max_width >= 1,
{
    if d.width <= max_width {
        Ok(d)
    } else {
        let nh = spec_round_div((max_width * d.height) as int, d.width as int);
        if nh == 0 {
            Err(PipelineError::InvalidGeometry)
        } else {
            Ok(Dims { width: max_width, height: nh as u32 })
        }
    }
}

/// Computes the dimensions of the bounded (downscale-only) resize of `d` to
/// at most `max_width` pixels of width.
pub fn resize_dims(d: Dims, max_width: u32) -> (r: Result<Dims, PipelineError>)
    requires
        max_width >= 1,
    ensures
        r == spec_resize(d, max_width),
        // Never upscale: a narrow enough image is returned unchanged.
        d.width <= max_width ==> r == Ok::<Dims, PipelineError>(d),
        // Downscale only, and the bound is enforced.
        r matches Ok(nd) ==> nd.width <= d.width && nd.height <= d.height && nd.width
            <= max_width,
        r matches Ok(nd) ==> (d.valid() ==> nd.valid()),
{
    if d.width <= max_width {
        Ok(d)
    } else {
        proof {
            assert((max_width as int) * (d.height as int) <= 0xffff_fffe_0000_0001)
                by (nonlinear_arith)
                requires
                    0 <= max_width <= 0xffff_ffff,
                    0 <= d.height <= 0xffff_ffff,
            ;
        }
        let mh: u64 = (max_width as u64) * (d.height as u64);
        let half: u64 = (d.width / 2) as u64;
        let nh64: u64 = (mh + half) / (d.width as u64);
        proof {
            assert(mh + half < (d.width as int) * ((d.height as int) + 1)) by (nonlinear_arith)
                requires
                    mh == (max_width as int) * (d.height as int),
                    max_width <= (d.width as int) - 1,
                    half <= (d.width as int) / 2,
                    d.width >= 1,
                    d.height >= 0,
            ;
            assert(nh64 <= d.height) by (nonlinear_arith)
                requires
                    nh64 == (mh + half) as int / (d.width as int),
                    mh + half < (d.width as int) * ((d.height as int) + 1),
                    d.width >= 1,
            ;
        }
        let nh: u32 = nh64 as u32;
        if nh == 0 {
            Err(PipelineError::InvalidGeometry)
        } else {
            Ok(Dims { width: max_width, height: nh })
        }
    }
}

} // verus!
