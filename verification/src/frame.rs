//! The frame: one pixel for each LED of the strip.

use vstd::prelude::*;

verus! {

/// The pixel of an LED that is off.
pub open spec fn black() -> [u8; 4] {
    [0u8, 0u8, 0u8, 0u8]
}

/// The frame with the pixel at `position` set to `color`; a position beyond
/// the frame changes nothing.
pub open spec fn put(frame: Seq<[u8; 4]>, position: usize, color: [u8; 4]) -> Seq<[u8; 4]> {
    if position < frame.len() {
        frame.update(position as int, color)
    } else {
        frame
    }
}

/// Sets the pixel at `position`, if the frame has one there.
pub fn put_pixel(frame: &mut Vec<[u8; 4]>, position: usize, color: [u8; 4])
    ensures
        final(frame)@ == put(old(frame)@, position, color),
{
    if position < frame.len() {
        frame[position] = color;
    }
}

/// One lit pixel.
#[derive(Debug, Clone, Copy)]
pub struct Led {
    pub position: usize,
    pub color: [u8; 4],
}

/// The frame with each of `leds` painted at its position, in order, so that
/// of two at one position the later one shows.
pub open spec fn paint_leds(frame: Seq<[u8; 4]>, leds: Seq<Led>) -> Seq<[u8; 4]>
    decreases leds.len(),
{
    if leds.len() == 0 {
        frame
    } else {
        put(paint_leds(frame, leds.drop_last()), leds.last().position, leds.last().color)
    }
}

/// Whether every one of `leds` lies on a frame of `len` pixels.
pub open spec fn leds_fit(leds: Seq<Led>, len: nat) -> bool {
    forall|i: int| 0 <= i < leds.len() ==> (#[trigger] leds[i]).position < len
}

/// Whether none of `leds` from index `from` on lies at `pixel`.
pub open spec fn none_at_from(leds: Seq<Led>, pixel: int, from: int) -> bool {
    forall|j: int| from <= j < leds.len() ==> (#[trigger] leds[j]).position != pixel
}

/// Painting keeps the frame's length. A pixel at which nothing is painted
/// stays as it was, and every other pixel shows the color of the last of
/// `leds` at its position.
pub proof fn lemma_paint_leds(frame: Seq<[u8; 4]>, leds: Seq<Led>)
    ensures
        paint_leds(frame, leds).len() == frame.len(),
        forall|pixel: int|
            0 <= pixel < frame.len() && none_at_from(leds, pixel, 0) ==> #[trigger] paint_leds(
                frame,
                leds,
            )[pixel] == frame[pixel],
        forall|pixel: int, i: int|
            0 <= pixel < frame.len() && 0 <= i < leds.len() && leds[i].position == pixel
                && none_at_from(leds, pixel, i + 1) ==> #[trigger] paint_leds(frame, leds)[pixel]
                == (#[trigger] leds[i]).color,
    decreases leds.len(),
{
    if leds.len() > 0 {
        let rest = leds.drop_last();
        lemma_paint_leds(frame, rest);
        let painted = paint_leds(frame, leds);
        assert forall|pixel: int|
            0 <= pixel < frame.len() && none_at_from(leds, pixel, 0) implies #[trigger] painted[pixel]
            == frame[pixel] by {
            assert(leds[leds.len() - 1].position != pixel);
            assert forall|j: int| 0 <= j < rest.len() implies (#[trigger] rest[j]).position
                != pixel by {
                assert(rest[j] == leds[j]);
            }
        }
        assert forall|pixel: int, i: int|
            0 <= pixel < frame.len() && 0 <= i < leds.len() && leds[i].position == pixel
                && none_at_from(leds, pixel, i + 1) implies #[trigger] painted[pixel]
            == (#[trigger] leds[i]).color by {
            if i < leds.len() - 1 {
                assert(leds[leds.len() - 1].position != pixel);
                assert(rest[i] == leds[i]);
                assert forall|j: int| i + 1 <= j < rest.len() implies (#[trigger] rest[j]).position
                    != pixel by {
                    assert(rest[j] == leds[j]);
                }
                assert(paint_leds(frame, rest)[pixel] == rest[i].color);
            }
        }
    }
}

/// Paints each of `leds` into the frame, in order.
pub fn draw_leds(leds: &Vec<Led>, frame: &mut Vec<[u8; 4]>)
    requires
        leds_fit(leds@, old(frame)@.len()),
    ensures
        final(frame)@ == paint_leds(old(frame)@, leds@),
        final(frame)@.len() == old(frame)@.len(),
{
    let mut i: usize = 0;
    while i < leds.len()
        invariant
            i <= leds.len(),
            frame@.len() == old(frame)@.len(),
            leds_fit(leds@, frame@.len()),
            frame@ == paint_leds(old(frame)@, leds@.take(i as int)),
        decreases leds.len() - i,
    {
        let led = leds[i];
        proof {
            assert(leds@.take(i + 1).drop_last() =~= leds@.take(i as int));
            assert(leds@.take(i + 1).last() == led);
        }
        frame[led.position] = led.color;
        i += 1;
    }
    assert(leds@.take(i as int) =~= leds@);
}

/// Tells whether every one of `leds` lies on a frame of `len` pixels.
pub fn leds_fit_frame(leds: &Vec<Led>, len: usize) -> (fit: bool)
    ensures
        fit == leds_fit(leds@, len as nat),
{
    let mut i: usize = 0;
    while i < leds.len()
        invariant
            i <= leds.len(),
            forall|k: int| 0 <= k < i ==> (#[trigger] leds@[k]).position < len,
        decreases leds.len() - i,
    {
        if leds[i].position >= len {
            return false;
        }
        i += 1;
    }
    true
}

} // verus!
