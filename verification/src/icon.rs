//! The application icon: decoding the embedded `.ico` file and converting its
//! pixels to the ARGB byte order that the Linux tray expects.
use image::GenericImageView;
use vstd::prelude::*;

verus! {

/// Width, height and RGBA bytes that `image` decodes from `bytes`
/// (`image::load_from_memory`, then `into_rgba8`), when it can.
pub uninterp spec fn decoded_image(bytes: Seq<u8>) -> Option<(u32, u32, Seq<u8>)>;

/// Decodes an image with `image::load_from_memory` and converts it to 8-bit
/// RGBA; the result is named by `decoded_image`.
#[verifier::external_body]
fn decode_rgba(bytes: &[u8]) -> (r: Option<(u32, u32, Vec<u8>)>)
    ensures
        match r {
            Some((w, h, data)) => decoded_image(bytes@) == Some((w, h, data@)),
            None => decoded_image(bytes@) is None,
        },
{
    match image::load_from_memory(bytes) {
        Ok(img) => {
            let (w, h) = img.dimensions();
            Some((w, h, img.into_rgba8().into_raw()))
        },
        Err(_) => None,
    }
}

/// Raw RGBA icon data decoded from the embedded `.ico` file.
pub struct IconData {
    pub rgba: Vec<u8>,
    pub width: u32,
    pub height: u32,
}

/// Decodes the application icon from the bytes of its `.ico` file (the
/// caller embeds the file; it is known to decode).
pub fn load_app_icon(bytes: &[u8]) -> (icon: IconData)
    requires
        decoded_image(bytes@) is Some,
    ensures
        decoded_image(bytes@) == Some((icon.width, icon.height, icon.rgba@)),
{
    match decode_rgba(bytes) {
        Some((width, height, rgba)) => IconData { rgba, width, height },
        None => {
            proof {
                assert(false);
            }
            IconData { rgba: Vec::new(), width: 0, height: 0 }
        },
    }
}

/// An icon in the byte order of the StatusNotifierItem protocol (ARGB32).
pub struct ArgbIcon {
    pub width: i32,
    pub height: i32,
    pub data: Vec<u8>,
}

/// `data` with each whole 4-byte pixel rotated right by one byte
/// (RGBA becomes ARGB); trailing bytes of an incomplete pixel stay.
pub open spec fn argb_of(data: Seq<u8>) -> Seq<u8> {
    Seq::new(
        data.len(),
        |i: int|
            if i < data.len() - data.len() % 4 {
                if i % 4 == 0 {
                    data[i + 3]
                } else {
                    data[i - 1]
                }
            } else {
                data[i]
            },
    )
}

/// Rotates each whole 4-byte pixel right by one byte, in place
/// (`chunks_exact_mut(4)` with `rotate_right(1)`).
pub fn rgba_to_argb(data: &mut Vec<u8>)
    ensures
        final(data)@ == argb_of(old(data)@),
{
    let ghost orig = data@;
    let n = data.len();
    let full = n - n % 4;
    let mut p: usize = 0;
    while p < full
        invariant
            n == orig.len(),
            full == n - n % 4,
            p <= full,
            p % 4 == 0,
            data@.len() == n,
            forall|i: int| 0 <= i < p ==> data@[i] == #[trigger] argb_of(orig)[i],
            forall|i: int| p <= i < n ==> data@[i] == orig[i],
        decreases full - p,
    {
        let r = data[p];
        let g = data[p + 1];
        let b = data[p + 2];
        let a = data[p + 3];
        data.set(p, a);
        data.set(p + 1, r);
        data.set(p + 2, g);
        data.set(p + 3, b);
        assert forall|i: int| 0 <= i < p + 4 implies data@[i] == #[trigger] argb_of(orig)[i] by {
            if i >= p {
                assert(i % 4 == i - p);
            }
        }
        p = p + 4;
    }
    assert(data@ =~= argb_of(orig));
}

/// The tray icon made from decoded RGBA data.
pub fn argb_icon(icon: IconData) -> (r: ArgbIcon)
    ensures
        r.width == icon.width as i32,
        r.height == icon.height as i32,
        r.data@ == argb_of(icon.rgba@),
{
    let mut data = icon.rgba;
    rgba_to_argb(&mut data);
    ArgbIcon { width: #[verifier::truncate] (icon.width as i32), height: #[verifier::truncate] (icon.height as i32), data }
}

/// The tray icon decoded from `.ico` bytes, when they decode.
pub fn load_icon_from_bytes(bytes: &[u8]) -> (r: Option<ArgbIcon>)
    ensures
        match decoded_image(bytes@) {
            Some((w, h, rgba)) => r matches Some(icon) && icon.width == w as i32 && icon.height
                == h as i32 && icon.data@ == argb_of(rgba),
            None => r is None,
        },
{
    match decode_rgba(bytes) {
        Some(_) => Some(argb_icon(load_app_icon(bytes))),
        None => None,
    }
}

/// Side of the fallback icon, in pixels.
pub const FALLBACK_SIZE: u32 = 32;

/// Whether the fallback icon's pixel `(x, y)` lies in its disc: centre
/// (16, 16), radius 14 (distance at most 14, that is squared distance at most
/// 196).
pub open spec fn in_disc(x: int, y: int) -> bool {
    (x - 16) * (x - 16) + (y - 16) * (y - 16) <= 196
}

/// Byte `k` of the fallback icon's pixel `(x, y)` in ARGB order: opaque blue
/// inside the disc, transparent outside.
pub open spec fn fallback_byte(x: int, y: int, k: int) -> u8 {
    if in_disc(x, y) {
        if k == 0 {
            255u8
        } else if k == 1 {
            0x33u8
        } else if k == 2 {
            0x99u8
        } else {
            0xFFu8
        }
    } else {
        0u8
    }
}

/// The ARGB bytes of the fallback icon, row by row.
pub open spec fn fallback_pixels() -> Seq<u8> {
    Seq::new(4096, |i: int| fallback_byte((i / 4) % 32, (i / 4) / 32, i % 4))
}

/// A blue disc on a transparent background, used when no icon decodes.
pub fn make_fallback_icon() -> (icon: ArgbIcon)
    ensures
        icon.width == 32,
        icon.height == 32,
        icon.data@ == fallback_pixels(),
{
    let mut data: Vec<u8> = Vec::new();
    let mut y: i64 = 0;
    while y < 32
        invariant
            0 <= y <= 32,
            data@.len() == y * 128,
            forall|i: int| 0 <= i < data@.len() ==> data@[i] == #[trigger] fallback_pixels()[i],
        decreases 32 - y,
    {
        let mut x: i64 = 0;
        while x < 32
            invariant
                0 <= y < 32,
                0 <= x <= 32,
                data@.len() == y * 128 + x * 4,
                forall|i: int| 0 <= i < data@.len() ==> data@[i] == #[trigger] fallback_pixels()[i],
            decreases 32 - x,
        {
            let dx = x - 16;
            let dy = y - 16;
            assert(0 <= dx * dx <= 256 && 0 <= dy * dy <= 256) by (nonlinear_arith)
                requires
                    -16 <= dx <= 16,
                    -16 <= dy <= 16,
            ;
            let inside = dx * dx + dy * dy <= 196;
            let base = data.len();
            if inside {
                data.push(255);
                data.push(0x33);
                data.push(0x99);
                data.push(0xFF);
            } else {
                data.push(0);
                data.push(0);
                data.push(0);
                data.push(0);
            }
            assert forall|i: int| 0 <= i < data@.len() implies data@[i] == #[trigger] fallback_pixels()[i] by {
                if i >= base {
                    assert(i == y * 128 + x * 4 + (i - base));
                    assert((i / 4) % 32 == x && (i / 4) / 32 == y && i % 4 == i - base) by (nonlinear_arith)
                        requires
                            i == y * 128 + x * 4 + (i - base),
                            0 <= i - base < 4,
                            0 <= x < 32,
                            0 <= y < 32,
                    ;
                }
            }
            x = x + 1;
        }
        y = y + 1;
    }
    ArgbIcon { width: 32, height: 32, data }
}

} // verus!
