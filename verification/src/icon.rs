//! The remote-icon pixel pipeline: decoding fetched bytes as a raster
//! image and reordering each pixel's channels to the platform icon
//! convention (blue byte first).  Fetching the bytes is the caller's
//! side; every failure here degrades to "no custom icon".

use vstd::prelude::*;

verus! {

/// What decoding a byte sequence as a raster image and converting it to
/// 8-bit RGBA yields: `None` when the bytes hold no supported format,
/// otherwise the width, the height and the row-major RGBA samples.
/// A function of the bytes alone.
pub uninterp spec fn rgba_decode(bytes: Seq<u8>) -> Option<(nat, nat, Seq<u8>)>;

/// Relies on `image::load_from_memory` (decoding depends on the bytes
/// alone) and `image::DynamicImage::to_rgba8` with
/// `ImageBuffer::into_raw` (the buffer holds exactly four samples per
/// pixel, row-major).
#[verifier::external_body]
fn decode_rgba(bytes: &Vec<u8>) -> (r: Option<(u32, u32, Vec<u8>)>)
    ensures
        (match r {
            Some((w, h, px)) => rgba_decode(bytes@) == Some(((w as nat), (h as nat), px@))
                && px@.len() == 4 * (w as nat) * (h as nat),
            None => rgba_decode(bytes@) is None,
        }),
{
    match image::load_from_memory(bytes.as_slice()) {
        Ok(img) => {
            let rgba = img.to_rgba8();
            let w = rgba.width();
            let h = rgba.height();
            Some((w, h, rgba.into_raw()))
        },
        Err(_) => None,
    }
}

/// The byte at position `i` after the first and third byte of every
/// complete four-byte group are exchanged; bytes past the last complete
/// group are unchanged.
pub open spec fn swapped_at(s: Seq<u8>, i: int) -> u8 {
    if i < 4 * (s.len() / 4) {
        if i % 4 == 0 {
            s[i + 2]
        } else if i % 4 == 2 {
            s[i - 2]
        } else {
            s[i]
        }
    } else {
        s[i]
    }
}

/// `s` with the first and third byte of every complete four-byte group
/// exchanged: the red/blue channel swap between RGBA and the platform
/// icon order.
pub open spec fn channel_swapped(s: Seq<u8>) -> Seq<u8> {
    Seq::new(s.len(), |i: int| swapped_at(s, i))
}

/// Exchanges the first and third byte of every complete four-byte group
/// in place.
pub fn swap_channels(buf: &mut Vec<u8>)
    ensures
        final(buf)@ == channel_swapped(old(buf)@),
{
    let ghost orig: Seq<u8> = buf@;
    let groups = buf.len() / 4;
    proof {
        assert(4 * ((orig.len() as int) / 4) <= orig.len() as int) by (nonlinear_arith);
    }
    let mut g: usize = 0;
    while g < groups
        invariant
            groups == orig.len() as int / 4,
            4 * (groups as int) <= orig.len(),
            orig.len() <= usize::MAX,
            buf@.len() == orig.len(),
            g <= groups,
            forall|j: int|
                0 <= j < orig.len() ==> buf@[j] == (if j < 4 * (g as int) {
                    swapped_at(orig, j)
                } else {
                    orig[j]
                }),
        decreases groups - g,
    {
        proof {
            assert((4 * (g as int)) % 4 == 0 && (4 * (g as int) + 1) % 4 == 1 && (4 * (g as int)
                + 2) % 4 == 2 && (4 * (g as int) + 3) % 4 == 3 && 4 * (g as int) + 3 < 4 * (
            groups as int)) by (nonlinear_arith)
                requires
                    0 <= g < groups,
            ;
        }
        let i = 4 * g;
        let a = buf[i];
        let b = buf[i + 2];
        buf.set(i, b);
        buf.set(i + 2, a);
        g = g + 1;
    }
    proof {
        assert(buf@ =~= channel_swapped(orig));
    }
}

/// Exchanging the first and third byte of every complete group is its
/// own inverse: applying the swap twice restores the original bytes.
pub proof fn lemma_swap_self_inverse(s: Seq<u8>)
    ensures
        channel_swapped(channel_swapped(s)) == s,
{
    let t = channel_swapped(s);
    assert(t.len() == s.len());
    let k = s.len() as int / 4;
    assert forall|i: int| 0 <= i < s.len() implies channel_swapped(t)[i] == s[i] by {
        if i < 4 * k {
            if i % 4 == 0 {
                assert((i + 2) % 4 == 2 && i + 2 < 4 * k) by (nonlinear_arith)
                    requires
                        i % 4 == 0 && 0 <= i < 4 * k,
                ;
                assert(t[i + 2] == s[i]);
            } else if i % 4 == 2 {
                assert((i - 2) % 4 == 0 && 0 <= i - 2) by (nonlinear_arith)
                    requires
                        i % 4 == 2 && 0 <= i,
                ;
                assert(t[i - 2] == s[i]);
            }
        }
    };
    assert(channel_swapped(t) =~= s);
}

/// A decoded icon ready for the platform icon constructor: pixel buffer
/// in the platform byte order, four bytes per pixel.
pub struct IconAsset {
    pub width: u32,
    pub height: u32,
    pub bgra: Vec<u8>,
}

impl IconAsset {
    /// The buffer holds exactly `width * height` four-byte pixels.
    pub open spec fn wf(&self) -> bool {
        self.bgra@.len() == 4 * (self.width as nat) * (self.height as nat)
    }
}

/// Decodes fetched bytes and reorders every pixel to the platform
/// convention.  Yields `None` exactly when the bytes decode as no
/// supported image — the degraded "no custom icon" state, never an
/// error.
pub fn build_icon_asset(bytes: &Vec<u8>) -> (r: Option<IconAsset>)
    ensures
        (match r {
            Some(icon) => icon.wf() && (match rgba_decode(bytes@) {
                Some((w, h, px)) => icon.width as nat == w && icon.height as nat == h
                    && icon.bgra@ == channel_swapped(px),
                None => false,
            }),
            None => rgba_decode(bytes@) is None,
        }),
{
    match decode_rgba(bytes) {
        Some((w, h, px)) => {
            let mut pixels = px;
            swap_channels(&mut pixels);
            Some(IconAsset { width: w, height: h, bgra: pixels })
        },
        None => None,
    }
}

/// The descriptive client identifier the icon download presents to the
/// remote server.
pub fn user_agent() -> (u: String)
    ensures
        u@ == "QuestPasser/1.0 (gzip)"@,
{
    String::from_str("QuestPasser/1.0 (gzip)")
}

/// The all-zero mask buffer handed to the platform icon constructor
/// beside the pixel buffer: one bit per pixel, rounded down to bytes.
pub fn icon_mask(width: u32, height: u32) -> (m: Vec<u8>)
    requires
        (width as nat) * (height as nat) / 8 <= usize::MAX as nat,
    ensures
        m@.len() == (width as nat) * (height as nat) / 8,
        forall|i: int| 0 <= i < m@.len() ==> m@[i] == 0u8,
{
    proof {
        assert((width as int) * (height as int) <= 0xffff_ffff_ffff_ffff) by (nonlinear_arith)
            requires
                0 <= width as int <= 0xffff_ffff && 0 <= height as int <= 0xffff_ffff,
        ;
    }
    let count = ((width as u64) * (height as u64) / 8) as usize;
    let mut m: Vec<u8> = Vec::new();
    let mut i: usize = 0;
    while i < count
        invariant
            i <= count,
            m@.len() == i,
            count == (width as nat) * (height as nat) / 8,
            forall|j: int| 0 <= j < m@.len() ==> m@[j] == 0u8,
        decreases count - i,
    {
        m.push(0u8);
        i = i + 1;
    }
    m
}

} // verus!
