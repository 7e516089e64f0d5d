//! Shared vocabulary of the panel drivers.
//!
//! A panel driver does not touch a bus here: it produces a sequence of
//! [`PanelOp`] values (command byte, data byte, delay, control-line change)
//! that an unverified transport layer plays back over SPI. Pixel payloads are
//! kept apart from the command stream and are split into bounded chunks so
//! that a transport with a small buffer can carry them.

use vstd::prelude::*;

verus! {

/// One step of a panel bring-up or addressing sequence.
///
/// `Cmd` is sent with the data/command select line low, `Data` with it high;
/// `DelayMs` is a pause; `SetReset` and `SetBacklight` drive the respective
/// control lines.
#[derive(Debug, Clone, Copy, PartialEq, Eq, Structural)]
pub enum PanelOp {
    Cmd(u8),
    Data(u8),
    DelayMs(u32),
    SetReset(bool),
    SetBacklight(bool),
}

/// High byte of a 16-bit value as sent on the wire (big-endian).
pub open spec fn spec_be_hi(v: u16) -> u8 {
    (v / 256) as u8
}

/// Low byte of a 16-bit value as sent on the wire (big-endian).
pub open spec fn spec_be_lo(v: u16) -> u8 {
    (v % 256) as u8
}

/// High byte of a big-endian 16-bit coordinate.
pub fn be_hi(v: u16) -> (r: u8)
    ensures
        r == spec_be_hi(v),
{
    (v / 256) as u8
}

/// Low byte of a big-endian 16-bit coordinate.
pub fn be_lo(v: u16) -> (r: u8)
    ensures
        r == spec_be_lo(v),
{
    (v % 256) as u8
}

/// The pixel bytes each chunk holds, as sequences.
pub open spec fn chunk_views(chunks: Seq<Vec<u8>>) -> Seq<Seq<u8>> {
    chunks.map_values(|c: Vec<u8>| c@)
}

/// Split a pixel payload into transport-sized chunks.
///
/// No chunk is empty or larger than `max`, every chunk but the last is
/// exactly `max` bytes, and the concatenation of all chunks is the original
/// payload byte for byte.
pub fn chunk_pixels(data: &[u8], max: usize) -> (r: Vec<Vec<u8>>)
    requires
        max >= 1,
    ensures
        forall|i: int| 0 <= i < r@.len() ==> #[trigger] r@[i]@.len() <= max,
        forall|i: int| 0 <= i < r@.len() ==> #[trigger] r@[i]@.len() > 0,
        forall|i: int| 0 <= i < r@.len() - 1 ==> #[trigger] r@[i]@.len() == max,
        chunk_views(r@).flatten() == data@,
{
    let ghost gmax = max as int;
    let mut r: Vec<Vec<u8>> = Vec::new();
    let mut pos: usize = 0;
    proof {
        assert(chunk_views(r@).flatten() =~= data@.take(0));
    }
    while pos < data.len()
        invariant
            pos <= data.len(),
            max == gmax,
            max >= 1,
            forall|i: int| 0 <= i < r@.len() ==> #[trigger] r@[i]@.len() <= gmax,
            forall|i: int| 0 <= i < r@.len() ==> #[trigger] r@[i]@.len() > 0,
            forall|i: int|
                0 <= i < r@.len() ==> (#[trigger] r@[i]@.len() == gmax || (i == r@.len() - 1
                    && pos == data@.len())),
            chunk_views(r@).flatten() == data@.take(pos as int),
        decreases data@.len() - pos,
    {
        let remaining = data.len() - pos;
        let take = if remaining < max {
            remaining
        } else {
            max
        };
        let end = pos + take;
        let mut chunk: Vec<u8> = Vec::new();
        let mut j = pos;
        while j < end
            invariant
                pos <= j <= end,
                end <= data@.len(),
                chunk@ == data@.subrange(pos as int, j as int),
            decreases end - j,
        {
            chunk.push(data[j]);
            proof {
                assert(chunk@ =~= data@.subrange(pos as int, j + 1));
            }
            j = j + 1;
        }
        proof {
            let prev = chunk_views(r@);
            assert(chunk_views(r@.push(chunk)) =~= prev.push(chunk@));
            prev.lemma_flatten_push(chunk@);
            assert(data@.take(pos as int) + chunk@ =~= data@.take(end as int));
        }
        r.push(chunk);
        pos = end;
    }
    proof {
        assert(data@.take(pos as int) =~= data@);
    }
    r
}

/// A run of pixels of one RGB565 colour, as the bytes that go on the wire:
/// high byte then low byte for every pixel.
pub fn fill_pixel_bytes(count: usize, color: u16) -> (r: Vec<u8>)
    requires
        count * 2 <= usize::MAX,
    ensures
        r@.len() == count * 2,
        forall|k: int|
            0 <= k < r@.len() ==> #[trigger] r@[k] == if k % 2 == 0 {
                spec_be_hi(color)
            } else {
                spec_be_lo(color)
            },
{
    let hi = be_hi(color);
    let lo = be_lo(color);
    let mut r: Vec<u8> = Vec::new();
    let mut i: usize = 0;
    while i < count
        invariant
            i <= count,
            count * 2 <= usize::MAX,
            r@.len() == i * 2,
            hi == spec_be_hi(color),
            lo == spec_be_lo(color),
            forall|k: int|
                0 <= k < r@.len() ==> #[trigger] r@[k] == if k % 2 == 0 {
                    spec_be_hi(color)
                } else {
                    spec_be_lo(color)
                },
        decreases count - i,
    {
        r.push(hi);
        r.push(lo);
        i = i + 1;
    }
    r
}

} // verus!
