//! Helpers for texture data.

use vstd::prelude::*;

verus! {

#[derive(Clone, Copy, Debug, PartialEq, Eq, Structural)]
pub enum TextureChannel {
    Red,
    Green,
    Blue,
    Alpha,
}

/// The place of a channel within a pixel of four.
pub open spec fn channel_offset(channel: TextureChannel) -> int {
    match channel {
        TextureChannel::Red => 0,
        TextureChannel::Green => 1,
        TextureChannel::Blue => 2,
        TextureChannel::Alpha => 3,
    }
}

/// A texture of four channels whose every pixel holds, in all four, what the
/// pixel at the same place of `texture` holds in `channel`. Values after the
/// last whole pixel of `texture` are left out.
pub open spec fn extracted<T>(texture: Seq<T>, channel: TextureChannel) -> Seq<T> {
    Seq::new(
        (texture.len() / 4 * 4) as nat,
        |i: int| texture[i / 4 * 4 + channel_offset(channel)],
    )
}

/// Extracts one channel of a texture of four channels, as a texture of four
/// channels again.
pub fn extract_texture<T: Copy>(texture: Vec<T>, channel: TextureChannel) -> (r: Vec<T>)
    ensures
        r@ == extracted(texture@, channel),
{
    let offset: usize = match channel {
        TextureChannel::Red => 0,
        TextureChannel::Green => 1,
        TextureChannel::Blue => 2,
        TextureChannel::Alpha => 3,
    };
    let pixels: usize = texture.len() / 4;
    let mut out: Vec<T> = Vec::new();
    let mut pixel: usize = 0;
    while pixel < pixels
        invariant
            pixel <= pixels,
            pixels == texture@.len() / 4,
            offset == channel_offset(channel),
            offset <= 3,
            4 * pixels <= texture.len(),
            out@.len() == 4 * pixel,
            forall|i: int| 0 <= i < out@.len() ==> out@[i] == texture@[i / 4 * 4 + offset],
        decreases pixels - pixel,
    {
        let value: T = texture[4 * pixel + offset];
        out.push(value);
        out.push(value);
        out.push(value);
        out.push(value);
        pixel += 1;
    }
    assert(out@ =~= extracted(texture@, channel));
    out
}

} // verus!
