//! The geometry resolver: target pixel dimensions and crop origin of a resize
//! under a fit mode.
//!
//! Scales are exact fractions and every rounding is a floor, so the same
//! request resolves to the same geometry everywhere. A side that would floor
//! to zero is held to one pixel: every resolved side is positive. Dimensions
//! are unsigned: the only invalid dimension is zero.

use vstd::prelude::*;
use crate::error::MediaError;
use crate::text::same_text;

verus! {

/// How the aspect ratio of the source meets the target box.
#[derive(Clone, Copy, Debug, PartialEq, Eq, Structural)]
pub enum FitMode {
    /// The target box exactly; the aspect ratio is not kept.
    Stretch,
    /// The largest size of the source's aspect ratio that fits in the box,
    /// with no side under one pixel.
    Fit,
    /// The smallest size of the source's aspect ratio that covers the box,
    /// cut down to the box around its centre.
    Crop,
}

impl FitMode {
    /// The mode that a name stands for: `fit`, `crop`, and `Stretch` for
    /// every other name.
    pub open spec fn of(name: Seq<char>) -> FitMode {
        if name == "fit"@ {
            FitMode::Fit
        } else if name == "crop"@ {
            FitMode::Crop
        } else {
            FitMode::Stretch
        }
    }

    /// Reads a mode name; an unknown name is `Stretch`, the default.
    pub fn parse(name: &str) -> (mode: FitMode)
        ensures
            mode == FitMode::of(name@),
    {
        if same_text(name, "fit") {
            FitMode::Fit
        } else if same_text(name, "crop") {
            FitMode::Crop
        } else {
            FitMode::Stretch
        }
    }
}

/// A scale factor as an exact fraction: numerator and denominator.
pub struct Scale {
    pub num: int,
    pub den: int,
}

/// `floor(x * scale)`.
pub open spec fn scaled(x: int, scale: Scale) -> int {
    (x * scale.num) / scale.den
}

/// The scale of `Fit`: the smaller of `tw / sw` and `th / sh`.
pub open spec fn fit_scale(sw: int, sh: int, tw: int, th: int) -> Scale {
    if tw * sh <= th * sw {
        Scale { num: tw, den: sw }
    } else {
        Scale { num: th, den: sh }
    }
}

/// The scale of `Crop`: the larger of `tw / sw` and `th / sh`.
pub open spec fn cover_scale(sw: int, sh: int, tw: int, th: int) -> Scale {
    if tw * sh >= th * sw {
        Scale { num: tw, den: sw }
    } else {
        Scale { num: th, den: sh }
    }
}

/// The larger of two integers.
pub open spec fn at_least(x: int, floor: int) -> int {
    if x < floor {
        floor
    } else {
        x
    }
}

/// The size to which the source is resampled before any cut: the target box
/// for `Stretch`, for `Fit` the scaled source held to at least one pixel a
/// side, and for `Crop` the scaled source held to at least the target box.
pub open spec fn intermediate(sw: int, sh: int, tw: int, th: int, mode: FitMode) -> (int, int) {
    match mode {
        FitMode::Stretch => (tw, th),
        FitMode::Fit => {
            let s = fit_scale(sw, sh, tw, th);
            (at_least(scaled(sw, s), 1), at_least(scaled(sh, s), 1))
        },
        FitMode::Crop => {
            let s = cover_scale(sw, sh, tw, th);
            (at_least(scaled(sw, s), tw), at_least(scaled(sh, s), th))
        },
    }
}

/// What a resize resolves to, over mathematical integers.
pub struct Geometry {
    pub width: int,
    pub height: int,
    pub crop_origin: Option<(int, int)>,
}

/// The geometry of a resize of a `sw` x `sh` source to a `tw` x `th` box.
pub open spec fn geometry_of(sw: int, sh: int, tw: int, th: int, mode: FitMode) -> Geometry {
    let (iw, ih) = intermediate(sw, sh, tw, th, mode);
    match mode {
        FitMode::Stretch => Geometry { width: tw, height: th, crop_origin: None },
        FitMode::Fit => Geometry { width: iw, height: ih, crop_origin: None },
        FitMode::Crop => Geometry {
            width: tw,
            height: th,
            crop_origin: Some(((iw - tw) / 2, (ih - th) / 2)),
        },
    }
}

/// Whether all four dimensions of a request are positive.
pub open spec fn valid_dimensions(sw: int, sh: int, tw: int, th: int) -> bool {
    sw > 0 && sh > 0 && tw > 0 && th > 0
}

/// The resolved size of a resize and, for `Crop`, where the cut starts in the
/// intermediate image.
#[derive(Clone, Copy, Debug, PartialEq, Eq)]
pub struct GeometryResult {
    pub width: u32,
    pub height: u32,
    pub crop_origin: Option<(u64, u64)>,
}

impl View for GeometryResult {
    type V = Geometry;

    open spec fn view(&self) -> Geometry {
        Geometry {
            width: self.width as int,
            height: self.height as int,
            crop_origin: match self.crop_origin {
                Some((x, y)) => Some((x as int, y as int)),
                None => None,
            },
        }
    }
}

/// `floor(x * (n / x)) == n`: scaling a side by the ratio of its own target
/// gives the target.
pub proof fn lemma_scaled_own_side(x: int, n: int)
    requires
        x > 0,
    ensures
        (x * n) / x == n,
{
    assert((x * n) / x == n) by (nonlinear_arith)
        requires
            x > 0,
    ;
}

/// Floor division brackets the product: `q * d <= p < (q + 1) * d`.
pub proof fn lemma_floor_brackets(p: int, d: int)
    requires
        d > 0,
    ensures
        (p / d) * d <= p < (p / d + 1) * d,
{
    assert((p / d) * d <= p < (p / d + 1) * d) by (nonlinear_arith)
        requires
            d > 0,
    ;
}

/// Floor division against a bound on the product, both ways.
pub proof fn lemma_floor_bounds(p: int, d: int, b: int)
    requires
        d > 0,
    ensures
        p <= b * d ==> p / d <= b,
        p >= b * d ==> p / d >= b,
{
    lemma_floor_brackets(p, d);
    let q = p / d;
    if p <= b * d {
        assert(q <= b) by (nonlinear_arith)
            requires
                q * d <= p,
                p <= b * d,
                d > 0,
        ;
    }
    if p >= b * d {
        assert(q >= b) by (nonlinear_arith)
            requires
                p < (q + 1) * d,
                p >= b * d,
                d > 0,
        ;
    }
}

/// The product of two 32-bit sides fits in 64 bits.
proof fn lemma_side_product(a: u32, b: u32)
    ensures
        a * b <= u64::MAX,
        a * b >= 0,
{
    assert(a * b <= 0xffff_ffff * 0xffff_ffff && a * b >= 0) by (nonlinear_arith)
        requires
            0 <= a <= 0xffff_ffff,
            0 <= b <= 0xffff_ffff,
    ;
}

/// The source scaled by `tw / sw` where `by_width` is set, else by
/// `th / sh`.
fn scale_sides(sw: u32, sh: u32, tw: u32, th: u32, by_width: bool) -> (size: (u64, u64))
    requires
        valid_dimensions(sw as int, sh as int, tw as int, th as int),
    ensures
        by_width ==> size.0 == scaled(sw as int, Scale { num: tw as int, den: sw as int })
            && size.1 == scaled(sh as int, Scale { num: tw as int, den: sw as int }),
        !by_width ==> size.0 == scaled(sw as int, Scale { num: th as int, den: sh as int })
            && size.1 == scaled(sh as int, Scale { num: th as int, den: sh as int }),
{
    proof {
        lemma_side_product(sh, tw);
        lemma_side_product(sw, th);
        lemma_scaled_own_side(sw as int, tw as int);
        lemma_scaled_own_side(sh as int, th as int);
    }
    if by_width {
        (tw as u64, (sh as u64 * tw as u64) / (sw as u64))
    } else {
        ((sw as u64 * th as u64) / (sh as u64), th as u64)
    }
}

/// The size to which the source is resampled before any cut is made. Both
/// sides are positive.
///
/// Fails with `InvalidDimensions` exactly when one of the four dimensions is
/// zero.
pub fn scaled_size(sw: u32, sh: u32, tw: u32, th: u32, mode: FitMode) -> (r: Result<
    (u64, u64),
    MediaError,
>)
    ensures
        match r {
            Ok(size) => valid_dimensions(sw as int, sh as int, tw as int, th as int) && (
                size.0 as int,
                size.1 as int,
            ) == intermediate(sw as int, sh as int, tw as int, th as int, mode),
            Err(e) => !valid_dimensions(sw as int, sh as int, tw as int, th as int) && e
                == MediaError::InvalidDimensions,
        },
        r matches Ok(size) ==> size.0 >= 1 && size.1 >= 1,
{
    if sw == 0 || sh == 0 || tw == 0 || th == 0 {
        return Err(MediaError::InvalidDimensions);
    }
    proof {
        lemma_side_product(tw, sh);
        lemma_side_product(th, sw);
    }
    let by_width_product: u64 = tw as u64 * sh as u64;
    let by_height_product: u64 = th as u64 * sw as u64;
    match mode {
        FitMode::Stretch => Ok((tw as u64, th as u64)),
        FitMode::Fit => {
            let (w, h) = scale_sides(sw, sh, tw, th, by_width_product <= by_height_product);
            let iw: u64 = if w < 1 {
                1
            } else {
                w
            };
            let ih: u64 = if h < 1 {
                1
            } else {
                h
            };
            Ok((iw, ih))
        },
        FitMode::Crop => {
            let (w, h) = scale_sides(sw, sh, tw, th, by_width_product >= by_height_product);
            let iw: u64 = if w < tw as u64 {
                tw as u64
            } else {
                w
            };
            let ih: u64 = if h < th as u64 {
                th as u64
            } else {
                h
            };
            Ok((iw, ih))
        },
    }
}

/// Resolves a resize of a `sw` x `sh` source to a `tw` x `th` box.
///
/// Fails with `InvalidDimensions` exactly when one of the four dimensions is
/// zero; else the result is `geometry_of` the request, and both resolved
/// sides are positive.
pub fn resolve(sw: u32, sh: u32, tw: u32, th: u32, mode: FitMode) -> (r: Result<
    GeometryResult,
    MediaError,
>)
    ensures
        match r {
            Ok(g) => valid_dimensions(sw as int, sh as int, tw as int, th as int) && g@
                == geometry_of(sw as int, sh as int, tw as int, th as int, mode),
            Err(e) => !valid_dimensions(sw as int, sh as int, tw as int, th as int) && e
                == MediaError::InvalidDimensions,
        },
        r matches Ok(g) ==> g.width >= 1 && g.height >= 1,
{
    let (iw, ih) = match scaled_size(sw, sh, tw, th, mode) {
        Ok(size) => size,
        Err(e) => {
            return Err(e);
        },
    };
    proof {
        law_fit_within_box(sw as int, sh as int, tw as int, th as int);
        law_crop_covers_box(sw as int, sh as int, tw as int, th as int);
    }
    match mode {
        FitMode::Stretch => Ok(GeometryResult { width: tw, height: th, crop_origin: None }),
        FitMode::Fit => Ok(GeometryResult { width: iw as u32, height: ih as u32, crop_origin: None }),
        FitMode::Crop => Ok(
            GeometryResult {
                width: tw,
                height: th,
                crop_origin: Some(((iw - tw as u64) / 2, (ih - th as u64) / 2)),
            },
        ),
    }
}

/// A resize request: the size of the source, the target box and the mode.
#[derive(Clone, Copy, Debug, PartialEq, Eq)]
pub struct GeometryRequest {
    pub source_width: u32,
    pub source_height: u32,
    pub target_width: u32,
    pub target_height: u32,
    pub mode: FitMode,
}

impl GeometryRequest {
    /// Resolves the request, as `resolve` does on its parts.
    pub fn resolve(&self) -> (r: Result<GeometryResult, MediaError>)
        ensures
            match r {
                Ok(g) => valid_dimensions(
                    self.source_width as int,
                    self.source_height as int,
                    self.target_width as int,
                    self.target_height as int,
                ) && g@ == geometry_of(
                    self.source_width as int,
                    self.source_height as int,
                    self.target_width as int,
                    self.target_height as int,
                    self.mode,
                ),
                Err(e) => !valid_dimensions(
                    self.source_width as int,
                    self.source_height as int,
                    self.target_width as int,
                    self.target_height as int,
                ) && e == MediaError::InvalidDimensions,
            },
            r matches Ok(g) ==> g.width >= 1 && g.height >= 1,
    {
        resolve(
            self.source_width,
            self.source_height,
            self.target_width,
            self.target_height,
            self.mode,
        )
    }
}

/// Under `Fit` the resolved image lies within the target box, touches it on
/// one side, and keeps the aspect ratio of the source to within one pixel:
/// one side is that of the box, and the other is the floor of its exact
/// value, or one pixel where that floor is zero.
pub proof fn law_fit_within_box(sw: int, sh: int, tw: int, th: int)
    requires
        valid_dimensions(sw, sh, tw, th),
    ensures
        ({
            let g = geometry_of(sw, sh, tw, th, FitMode::Fit);
            &&& 1 <= g.width <= tw
            &&& 1 <= g.height <= th
            &&& g.crop_origin is None
            &&& g.width == tw || g.height == th
            &&& (g.width == tw && (g.height - 1) * sw < g.width * sh < (g.height + 1) * sw && (
            g.height * sw <= g.width * sh || g.height == 1)) || (g.height == th && (g.width - 1)
                * sh < g.height * sw < (g.width + 1) * sh && (g.width * sh <= g.height * sw
                || g.width == 1))
        }),
{
    lemma_scaled_own_side(sw, tw);
    lemma_scaled_own_side(sh, th);
    assert(sh * tw == tw * sh && th * sw == sw * th) by (nonlinear_arith);
    if tw * sh <= th * sw {
        lemma_floor_brackets(sh * tw, sw);
        lemma_floor_bounds(sh * tw, sw, th);
        lemma_floor_bounds(sh * tw, sw, 0);
        assert(sh * tw > 0) by (nonlinear_arith)
            requires
                sh > 0,
                tw > 0,
        ;
        let h = at_least((sh * tw) / sw, 1);
        assert((h - 1) * sw < tw * sh < (h + 1) * sw && (h * sw <= tw * sh || h == 1))
            by (nonlinear_arith)
            requires
                ((sh * tw) / sw) * sw <= sh * tw < ((sh * tw) / sw + 1) * sw,
                h == at_least((sh * tw) / sw, 1),
                (sh * tw) / sw >= 0,
                sh * tw == tw * sh,
                sh * tw > 0,
                sw > 0,
        ;
    } else {
        lemma_floor_brackets(sw * th, sh);
        lemma_floor_bounds(sw * th, sh, tw);
        lemma_floor_bounds(sw * th, sh, 0);
        assert(sw * th > 0) by (nonlinear_arith)
            requires
                sw > 0,
                th > 0,
        ;
        let w = at_least((sw * th) / sh, 1);
        assert((w - 1) * sh < th * sw < (w + 1) * sh && (w * sh <= th * sw || w == 1))
            by (nonlinear_arith)
            requires
                ((sw * th) / sh) * sh <= sw * th < ((sw * th) / sh + 1) * sh,
                w == at_least((sw * th) / sh, 1),
                (sw * th) / sh >= 0,
                sw * th == th * sw,
                sw * th > 0,
                sh > 0,
        ;
    }
}

/// Every resolved side is positive, in every mode.
pub proof fn law_positive_dimensions(sw: int, sh: int, tw: int, th: int, mode: FitMode)
    requires
        valid_dimensions(sw, sh, tw, th),
    ensures
        geometry_of(sw, sh, tw, th, mode).width >= 1,
        geometry_of(sw, sh, tw, th, mode).height >= 1,
        intermediate(sw, sh, tw, th, mode).0 >= 1,
        intermediate(sw, sh, tw, th, mode).1 >= 1,
{
}

/// Under `Crop` the resolved size is the target box exactly, and the box set
/// at the crop origin lies within the intermediate image, which is the scaled
/// source itself: holding it to the box changes nothing.
pub proof fn law_crop_covers_box(sw: int, sh: int, tw: int, th: int)
    requires
        valid_dimensions(sw, sh, tw, th),
    ensures
        ({
            let g = geometry_of(sw, sh, tw, th, FitMode::Crop);
            let (iw, ih) = intermediate(sw, sh, tw, th, FitMode::Crop);
            let s = cover_scale(sw, sh, tw, th);
            &&& g.width == tw
            &&& g.height == th
            &&& iw == scaled(sw, s)
            &&& ih == scaled(sh, s)
            &&& iw == tw || ih == th
            &&& g.crop_origin matches Some((x, y))
            &&& 0 <= x
            &&& x + tw <= iw
            &&& 0 <= y
            &&& y + th <= ih
        }),
{
    lemma_scaled_own_side(sw, tw);
    lemma_scaled_own_side(sh, th);
    assert(sh * tw == tw * sh && th * sw == sw * th) by (nonlinear_arith);
    if tw * sh >= th * sw {
        lemma_floor_bounds(sh * tw, sw, th);
    } else {
        lemma_floor_bounds(sw * th, sh, tw);
    }
}

/// Under `Stretch` the resolved size is the target box and nothing is cut.
pub proof fn law_stretch_is_box(sw: int, sh: int, tw: int, th: int)
    ensures
        geometry_of(sw, sh, tw, th, FitMode::Stretch) == (Geometry {
            width: tw,
            height: th,
            crop_origin: None,
        }),
{
}

} // verus!
