use vstd::prelude::*;

verus! {

/// Why an icon could not be produced.
#[derive(Debug, PartialEq, Eq)]
pub enum IconError {
    /// The bitmap handle was null.
    NullBitmap,
    /// The bitmap's description could not be queried.
    BitmapQueryFailed,
    /// The bitmap has a zero, negative or unrepresentable size.
    InvalidSize,
    /// Reading back the bitmap's pixels failed.
    ReadbackFailed,
    /// The image encoder rejected the buffer.
    EncodeFailed(String),
    /// No icon is associated with the target.
    IconNotFound,
    /// The icon could not be decomposed into its bitmaps.
    IconInfoFailed(String),
    /// The icon has no color bitmap.
    NoColorBitmap,
}

impl IconError {
    /// A short human-readable reason.
    pub fn message(&self) -> (r: String)
        ensures
            r@ == match self {
                IconError::NullBitmap => "null bitmap"@,
                IconError::BitmapQueryFailed => "GetObjectW failed"@,
                IconError::InvalidSize => "invalid bitmap size"@,
                IconError::ReadbackFailed => "GetDIBits failed"@,
                IconError::EncodeFailed(m) => m@,
                IconError::IconNotFound => "icon not found"@,
                IconError::IconInfoFailed(m) => m@,
                IconError::NoColorBitmap => "no color bitmap"@,
            },
    {
        match self {
            IconError::NullBitmap => String::from_str("null bitmap"),
            IconError::BitmapQueryFailed => String::from_str("GetObjectW failed"),
            IconError::InvalidSize => String::from_str("invalid bitmap size"),
            IconError::ReadbackFailed => String::from_str("GetDIBits failed"),
            IconError::EncodeFailed(m) => m.clone(),
            IconError::IconNotFound => String::from_str("icon not found"),
            IconError::IconInfoFailed(m) => m.clone(),
            IconError::NoColorBitmap => String::from_str("no color bitmap"),
        }
    }
}

/// The largest pixel count times four that a bitmap read-back can describe.
pub const MAX_BUFFER_BYTES: u32 = 0x7fff_ffff;

/// A tightly packed, top-down RGBA image.
pub struct PixelBuffer {
    pub width: u32,
    pub height: u32,
    pub rgba: Vec<u8>,
}

pub open spec fn buffer_len(width: int, height: int) -> int {
    width * height * 4
}

impl PixelBuffer {
    /// Both sides positive and exactly four bytes per pixel.
    pub open spec fn wf(&self) -> bool {
        &&& self.width > 0
        &&& self.height > 0
        &&& self.rgba@.len() == buffer_len(self.width as int, self.height as int)
    }
}

/// Byte `i` of `bgra` after swapping the first and third byte of each pixel.
pub open spec fn swapped_byte(bgra: Seq<u8>, i: int) -> u8 {
    if i % 4 == 0 {
        bgra[i + 2]
    } else if i % 4 == 2 {
        bgra[i - 2]
    } else {
        bgra[i]
    }
}

/// The RGBA order of a BGRA byte sequence.
pub open spec fn rgba_of(bgra: Seq<u8>) -> Seq<u8> {
    Seq::new(bgra.len(), |i: int| swapped_byte(bgra, i))
}

/// The size that a bitmap description yields, or why it yields none.
pub open spec fn dimensions_spec(handle_is_null: bool, query_bytes: i32, width: i32, height: i32) -> Result<(u32, u32), IconError> {
    if handle_is_null {
        Err(IconError::NullBitmap)
    } else if query_bytes == 0 {
        Err(IconError::BitmapQueryFailed)
    } else if width <= 0 || height <= 0 || buffer_len(width as int, height as int) > MAX_BUFFER_BYTES as int {
        Err(IconError::InvalidSize)
    } else {
        Ok((width as u32, height as u32))
    }
}

/// Checks what the bitmap query returned: the handle, the number of bytes the
/// query filled (zero on failure) and the reported width and height.
pub fn bitmap_dimensions(handle_is_null: bool, query_bytes: i32, width: i32, height: i32) -> (r: Result<(u32, u32), IconError>)
    ensures
        r == dimensions_spec(handle_is_null, query_bytes, width, height),
        r matches Ok((w, h)) ==> w > 0 && h > 0 && buffer_len(w as int, h as int) <= MAX_BUFFER_BYTES,
{
    if handle_is_null {
        return Err(IconError::NullBitmap);
    }
    if query_bytes == 0 {
        return Err(IconError::BitmapQueryFailed);
    }
    if width <= 0 || height <= 0 {
        return Err(IconError::InvalidSize);
    }
    let w = width as u64;
    let h = height as u64;
    assert(w * h <= 0x7fff_ffff * 0x7fff_ffffu64) by (nonlinear_arith)
        requires
            w <= 0x7fff_ffff,
            h <= 0x7fff_ffff,
    ;
    if w * h > (MAX_BUFFER_BYTES as u64) / 4 {
        return Err(IconError::InvalidSize);
    }
    Ok((width as u32, height as u32))
}

/// A bitmap with a zero side is refused as invalid before any pixel buffer is
/// sized for it.
pub proof fn zero_side_is_invalid_size(query_bytes: i32, width: i32, height: i32)
    requires
        query_bytes != 0,
        width == 0 || height == 0,
    ensures
        dimensions_spec(false, query_bytes, width, height) == Err::<(u32, u32), IconError>(IconError::InvalidSize),
{
}

/// Length of the read-back buffer for a bitmap of the given size.
pub fn readback_len(width: u32, height: u32) -> (r: usize)
    requires
        buffer_len(width as int, height as int) <= MAX_BUFFER_BYTES,
    ensures
        r == buffer_len(width as int, height as int),
{
    (width as usize) * (height as usize) * 4
}

/// Swaps the first and third byte of every four-byte pixel in place, turning
/// BGRA into RGBA. The second and fourth byte (green and alpha) stay.
pub fn bgra_to_rgba(buf: &mut Vec<u8>)
    requires
        old(buf)@.len() % 4 == 0,
    ensures
        final(buf)@ == rgba_of(old(buf)@),
{
    let n = buf.len();
    let mut i: usize = 0;
    while i < n
        invariant
            n == buf@.len(),
            n % 4 == 0,
            i % 4 == 0,
            i <= n,
            forall|k: int| 0 <= k < i ==> buf@[k] == swapped_byte(old(buf)@, k),
            forall|k: int| i <= k < n ==> buf@[k] == old(buf)@[k],
        decreases n - i,
    {
        let b = buf[i];
        let r = buf[i + 2];
        buf.set(i, r);
        buf.set(i + 2, b);
        i = i + 4;
    }
    assert(buf@ =~= rgba_of(old(buf)@));
}

/// Converting a BGRA buffer puts red, green, blue and alpha of every pixel in
/// that order and leaves alpha as it was; converting twice gives the buffer back.
pub proof fn swap_orders_every_pixel(bgra: Seq<u8>)
    requires
        bgra.len() % 4 == 0,
    ensures
        rgba_of(bgra).len() == bgra.len(),
        forall|p: int|
            0 <= p < bgra.len() / 4 ==> {
                &&& #[trigger] rgba_of(bgra)[4 * p] == bgra[4 * p + 2]
                &&& rgba_of(bgra)[4 * p + 1] == bgra[4 * p + 1]
                &&& rgba_of(bgra)[4 * p + 2] == bgra[4 * p]
                &&& rgba_of(bgra)[4 * p + 3] == bgra[4 * p + 3]
            },
        rgba_of(rgba_of(bgra)) == bgra,
{
    assert forall|p: int| 0 <= p < bgra.len() / 4 implies {
        &&& #[trigger] rgba_of(bgra)[4 * p] == bgra[4 * p + 2]
        &&& rgba_of(bgra)[4 * p + 1] == bgra[4 * p + 1]
        &&& rgba_of(bgra)[4 * p + 2] == bgra[4 * p]
        &&& rgba_of(bgra)[4 * p + 3] == bgra[4 * p + 3]
    } by {
        assert((4 * p) % 4 == 0 && (4 * p + 1) % 4 == 1 && (4 * p + 2) % 4 == 2 && (4 * p + 3) % 4 == 3);
        assert(4 * p + 3 < bgra.len());
    }
    assert forall|i: int| 0 <= i < bgra.len() implies rgba_of(rgba_of(bgra))[i] == bgra[i] by {
        if i % 4 == 0 {
            assert(i + 2 < bgra.len());
            assert((i + 2) % 4 == 2);
        } else if i % 4 == 2 {
            assert((i - 2) % 4 == 0);
        }
    }
    assert(rgba_of(rgba_of(bgra)) =~= bgra);
}

/// Turns the outcome of a read-back into a pixel buffer: `scan_lines` is the
/// number of lines copied, zero on failure; `bgra` holds them.
pub fn finish_readback(width: u32, height: u32, scan_lines: i32, bgra: Vec<u8>) -> (r: Result<PixelBuffer, IconError>)
    requires
        width > 0,
        height > 0,
        bgra@.len() == buffer_len(width as int, height as int),
    ensures
        scan_lines == 0 <==> r is Err,
        r is Err ==> r == Err::<PixelBuffer, IconError>(IconError::ReadbackFailed),
        r matches Ok(p) ==> p.wf() && p.width == width && p.height == height && p.rgba@ == rgba_of(bgra@),
{
    if scan_lines == 0 {
        return Err(IconError::ReadbackFailed);
    }
    let mut rgba = bgra;
    assert(rgba@.len() % 4 == 0) by (nonlinear_arith)
        requires
            rgba@.len() == width as int * height as int * 4,
    ;
    bgra_to_rgba(&mut rgba);
    Ok(PixelBuffer { width, height, rgba })
}

} // verus!
