use vstd::prelude::*;

verus! {

/// A colour as red, green and blue intensities.
#[derive(Clone, Copy, Debug, PartialEq, Eq, Hash, Structural)]
pub struct RGB(pub u8, pub u8, pub u8);

/// The number of colours of the system palette.
pub const PALETTE_SIZE: usize = 64;

/// Colour `i` of a palette file: three bytes (red, green, blue) per colour.
pub open spec fn color_at(bytes: Seq<u8>, i: int) -> RGB {
    RGB(bytes[3 * i], bytes[3 * i + 1], bytes[3 * i + 2])
}

/// The system palette stored in the first 192 bytes of a palette file.
pub fn palette_from_bytes(bytes: &[u8]) -> (colors: Vec<RGB>)
    requires
        bytes@.len() >= 3 * PALETTE_SIZE,
    ensures
        colors@.len() == PALETTE_SIZE,
        forall|i: int| 0 <= i < PALETTE_SIZE ==> #[trigger] colors@[i] == color_at(bytes@, i),
{
    let mut colors: Vec<RGB> = Vec::new();
    let mut i: usize = 0;
    while i < PALETTE_SIZE
        invariant
            i <= PALETTE_SIZE,
            bytes@.len() >= 3 * PALETTE_SIZE,
            colors@.len() == i,
            forall|k: int| 0 <= k < i ==> #[trigger] colors@[k] == color_at(bytes@, k),
        decreases PALETTE_SIZE - i,
    {
        colors.push(RGB(bytes[3 * i], bytes[3 * i + 1], bytes[3 * i + 2]));
        i = i + 1;
    }
    colors
}

/// The colours of a frame of system-palette indices.
pub fn pixel_colors(pixels: &[u8], palette: &[RGB]) -> (colors: Vec<RGB>)
    requires
        palette@.len() == PALETTE_SIZE,
        forall|k: int| 0 <= k < pixels@.len() ==> (#[trigger] pixels@[k] as usize) < PALETTE_SIZE,
    ensures
        colors@.len() == pixels@.len(),
        forall|k: int| 0 <= k < pixels@.len() ==> #[trigger] colors@[k] == palette@[pixels@[k] as int],
{
    let mut colors: Vec<RGB> = Vec::new();
    let mut k: usize = 0;
    while k < pixels.len()
        invariant
            k <= pixels@.len(),
            palette@.len() == PALETTE_SIZE,
            forall|j: int| 0 <= j < pixels@.len() ==> (#[trigger] pixels@[j] as usize) < PALETTE_SIZE,
            colors@.len() == k,
            forall|j: int| 0 <= j < k ==> #[trigger] colors@[j] == palette@[pixels@[j] as int],
        decreases pixels@.len() - k,
    {
        colors.push(palette[pixels[k] as usize]);
        k = k + 1;
    }
    colors
}

} // verus!
