//! Icon bitmaps: conversion of a platform BGRA pixel buffer into RGBA8.
use vstd::prelude::*;

verus! {

/// Why an icon could not be turned into a bitmap.
#[derive(Clone, Copy, Debug, PartialEq, Eq, Structural)]
pub enum IconError {
    /// The shell has no icon for the path.
    IconUnavailable,
    /// Another platform call failed, or handed back data of the wrong shape.
    PlatformCallFailed,
}

impl IconError {
    /// A short description of the failure.
    pub fn describe(&self) -> (r: &'static str)
        ensures
            r@ == self.describe_spec(),
    {
        match self {
            IconError::IconUnavailable => "no icon is available",
            IconError::PlatformCallFailed => "a platform call failed",
        }
    }

    pub open spec fn describe_spec(&self) -> Seq<char> {
        match self {
            IconError::IconUnavailable => "no icon is available"@,
            IconError::PlatformCallFailed => "a platform call failed"@,
        }
    }
}

/// What the platform hands back for an icon: the colour bitmap's dimensions
/// as signed integers and its pixels, four bytes each in B, G, R, A order,
/// row-major and top to bottom.
#[derive(Clone, Debug)]
pub struct RawIcon {
    pub width: i32,
    pub height: i32,
    pub bgra: Vec<u8>,
}

/// An RGBA8 raster: `pixels` holds `width * height * 4` bytes, row-major and
/// top to bottom.
#[derive(Clone, Debug)]
pub struct IconBitmap {
    pub width: u32,
    pub height: u32,
    pub pixels: Vec<u8>,
}

/// The mathematical content of an [`IconBitmap`].
pub struct BitmapView {
    pub width: nat,
    pub height: nat,
    pub pixels: Seq<u8>,
}

impl View for IconBitmap {
    type V = BitmapView;

    open spec fn view(&self) -> BitmapView {
        BitmapView { width: self.width as nat, height: self.height as nat, pixels: self.pixels@ }
    }
}

impl BitmapView {
    /// The pixel buffer has exactly four bytes for each pixel.
    pub open spec fn well_formed(&self) -> bool {
        self.pixels.len() == self.width * self.height * 4
    }
}

/// The byte sequence with the first and third byte of every four swapped:
/// BGRA pixels become RGBA pixels and back.
pub open spec fn swap_red_blue(b: Seq<u8>) -> Seq<u8> {
    Seq::new(
        b.len(),
        |i: int|
            if i % 4 == 0 && i + 2 < b.len() {
                b[i + 2]
            } else if i % 4 == 2 {
                b[i - 2]
            } else {
                b[i]
            },
    )
}

/// The bitmap that a raw icon yields, or why it yields none: the dimensions
/// must not be negative and the buffer must hold exactly four bytes per pixel.
pub open spec fn converted(width: int, height: int, bgra: Seq<u8>) -> Result<BitmapView, IconError> {
    if width < 0 || height < 0 || bgra.len() != width * height * 4 {
        Err(IconError::PlatformCallFailed)
    } else {
        Ok(BitmapView { width: width as nat, height: height as nat, pixels: swap_red_blue(bgra) })
    }
}

/// The mathematical content of a conversion's result.
pub open spec fn bitmap_result_view(r: Result<IconBitmap, IconError>) -> Result<BitmapView, IconError> {
    match r {
        Ok(b) => Ok(b@),
        Err(e) => Err(e),
    }
}

/// What a resolution outcome yields once the pixels are converted.
pub open spec fn outcome_view(raw: Result<RawIcon, IconError>) -> Result<BitmapView, IconError> {
    match raw {
        Ok(r) => converted(r.width as int, r.height as int, r.bgra@),
        Err(e) => Err(e),
    }
}

/// Swaps the first and third byte of every four in place.
pub fn swap_red_blue_in_place(buf: &mut Vec<u8>)
    requires
        old(buf)@.len() % 4 == 0,
    ensures
        final(buf)@ == swap_red_blue(old(buf)@),
{
    let ghost orig = buf@;
    let n = buf.len();
    let mut i: usize = 0;
    while i < n
        invariant
            n == orig.len(),
            n % 4 == 0,
            i % 4 == 0,
            i <= n,
            buf@.len() == n,
            forall|j: int| 0 <= j < i ==> buf@[j] == #[trigger] swap_red_blue(orig)[j],
            forall|j: int| i <= j < n ==> buf@[j] == orig[j],
        decreases n - i,
    {
        let b = buf[i];
        let r = buf[i + 2];
        buf.set(i, r);
        buf.set(i + 2, b);
        i = i + 4;
    }
    assert(buf@ =~= swap_red_blue(orig));
}

/// Turns a raw icon into an RGBA bitmap.
pub fn convert_icon(raw: RawIcon) -> (r: Result<IconBitmap, IconError>)
    ensures
        bitmap_result_view(r) == converted(raw.width as int, raw.height as int, raw.bgra@),
{
    if raw.width < 0 || raw.height < 0 {
        return Err(IconError::PlatformCallFailed);
    }
    let n = raw.bgra.len();
    let w = raw.width as usize;
    let h = raw.height as usize;
    let size = match w.checked_mul(h) {
        Some(p) => p.checked_mul(4),
        None => None,
    };
    let size = match size {
        Some(s) => s,
        None => {
            proof {
                assert(w * h * 4 >= w * h) by (nonlinear_arith);
            }
            return Err(IconError::PlatformCallFailed);
        },
    };
    if n != size {
        return Err(IconError::PlatformCallFailed);
    }
    let mut pixels = raw.bgra;
    proof {
        assert(size % 4 == 0) by (nonlinear_arith)
            requires size == w * h * 4;
    }
    swap_red_blue_in_place(&mut pixels);
    Ok(IconBitmap { width: raw.width as u32, height: raw.height as u32, pixels })
}

/// Turns the outcome of an icon lookup into an RGBA bitmap, or passes its
/// failure on.
pub fn resolve_icon(raw: Result<RawIcon, IconError>) -> (r: Result<IconBitmap, IconError>)
    ensures
        bitmap_result_view(r) == outcome_view(raw),
{
    match raw {
        Ok(icon) => convert_icon(icon),
        Err(e) => Err(e),
    }
}

} // verus!
