//! The two plain animations: keys that light while they are held, and one
//! color over the whole strip.

use vstd::prelude::*;
use crate::color::{hex_to_rgb, solid_pixel};
use crate::config::Config;
use crate::frame::{black, draw_leds, leds_fit, leds_fit_frame, paint_leds, Led};

verus! {

/// Lights a key when it is pressed and darkens it when it is released.
/// Released keys stay in the list, black.
#[derive(Debug)]
pub struct DefaultAnimator {
    pub config: Config,
    pub leds: Vec<Led>,
}

/// Whether `index` is the first of `leds` at `position`.
pub open spec fn is_first_at(leds: Seq<Led>, position: usize, index: int) -> bool {
    &&& 0 <= index < leds.len()
    &&& leds[index].position == position
    &&& forall|j: int| 0 <= j < index ==> (#[trigger] leds[j]).position != position
}

/// Whether none of `leds` lies at `position`.
pub open spec fn none_at(leds: Seq<Led>, position: usize) -> bool {
    forall|j: int| 0 <= j < leds.len() ==> (#[trigger] leds[j]).position != position
}

/// Whether `after` is `before` with the first LED at `position` made black,
/// or `before` itself where it has none there.
pub open spec fn darkened(before: Seq<Led>, position: usize, after: Seq<Led>) -> bool {
    &&& none_at(before, position) ==> after == before
    &&& forall|index: int| #[trigger]
        is_first_at(before, position, index) ==> after == before.update(
            index,
            Led { position, color: black() },
        )
}

/// Among LEDs of which one lies at `position`, one is the first there.
pub proof fn lemma_first_or_none(leds: Seq<Led>, position: usize)
    ensures
        none_at(leds, position) || exists|index: int| is_first_at(leds, position, index),
    decreases leds.len(),
{
    if leds.len() > 0 {
        let rest = leds.drop_last();
        lemma_first_or_none(rest, position);
        if none_at(rest, position) {
            assert forall|j: int| 0 <= j < leds.len() - 1 implies (#[trigger] leds[j]).position
                != position by {
                assert(rest[j].position != position);
            }
            if leds.last().position == position {
                assert(is_first_at(leds, position, leds.len() - 1));
            }
        } else {
            let index = choose|index: int| is_first_at(rest, position, index);
            assert(rest[index] == leds[index]);
            assert forall|j: int| 0 <= j < index implies (#[trigger] leds[j]).position
                != position by {
                assert(rest[j].position != position);
            }
            assert(is_first_at(leds, position, index));
        }
    }
}

/// Releasing a key moves no LED and takes none out.
pub proof fn lemma_darkened_keeps_positions(before: Seq<Led>, position: usize, after: Seq<Led>)
    requires
        darkened(before, position, after),
    ensures
        after.len() == before.len(),
        forall|i: int| 0 <= i < before.len() ==> (#[trigger] after[i]).position == before[i].position,
{
    lemma_first_or_none(before, position);
    if !none_at(before, position) {
        let index = choose|index: int| is_first_at(before, position, index);
        assert(is_first_at(before, position, index));
    }
}

impl DefaultAnimator {
    /// No lit keys, under a copy of `config`.
    pub fn new(config: &Config) -> (created: Self)
        ensures
            created.leds@ == Seq::<Led>::empty(),
            created.config@ == config@,
    {
        Self { config: config.clone(), leds: Vec::new() }
    }

    /// Lights the key at `position`.
    pub fn note_on(&mut self, position: usize, color: [u8; 4])
        ensures
            final(self).leds@ == old(self).leds@.push(Led { position, color }),
            final(self).config == old(self).config,
    {
        self.leds.push(Led { position, color });
    }

    /// Darkens the key at `position` that was lit first. Others at the same
    /// position stay lit.
    pub fn note_off(&mut self, position: usize)
        ensures
            darkened(old(self).leds@, position, final(self).leds@),
            final(self).leds@.len() == old(self).leds@.len(),
            final(self).config == old(self).config,
    {
        let mut i: usize = 0;
        while i < self.leds.len()
            invariant
                i <= self.leds.len(),
                *self == *old(self),
                forall|j: int| 0 <= j < i ==> (#[trigger] self.leds@[j]).position != position,
            decreases self.leds.len() - i,
        {
            if self.leds[i].position == position {
                self.leds[i].color = [0, 0, 0, 0];
                proof {
                    let before = old(self).leds@;
                    assert(is_first_at(before, position, i as int));
                    assert(self.leds@ =~= before.update(
                        i as int,
                        Led { position, color: black() },
                    ));
                    assert forall|index: int| #[trigger]
                        is_first_at(before, position, index) implies index == i by {
                        if index < i {
                            assert(before[index].position != position);
                        } else if index > i {
                            assert(before[i as int].position != position);
                        }
                    }
                }
                return ;
            }
            i += 1;
        }
    }

    /// Tells whether every key lies on a frame of `len` pixels.
    pub fn fits(&self, len: usize) -> (fit: bool)
        ensures
            fit == leds_fit(self.leds@, len as nat),
    {
        leds_fit_frame(&self.leds, len)
    }

    /// Paints every key into the frame, in the order in which they were lit.
    pub fn draw(&self, frame: &mut Vec<[u8; 4]>)
        requires
            leds_fit(self.leds@, old(frame)@.len()),
        ensures
            final(frame)@ == paint_leds(old(frame)@, self.leds@),
            final(frame)@.len() == old(frame)@.len(),
    {
        draw_leds(&self.leds, frame);
    }
}

/// Shows the configured color on every LED.
#[derive(Debug)]
pub struct StaticColor {
    pub config: Config,
}

impl StaticColor {
    /// The pixel that every LED shows.
    pub open spec fn pixel(&self) -> [u8; 4] {
        solid_pixel(self.config@.leds.color_mode)
    }

    /// One color over the strip, under a copy of `config`.
    pub fn new(config: &Config) -> (created: Self)
        ensures
            created.config@ == config@,
    {
        Self { config: config.clone() }
    }

    /// Floods the frame with the configured color.
    pub fn draw(&self, frame: &mut Vec<[u8; 4]>)
        ensures
            final(frame)@ == Seq::new(old(frame)@.len(), |i: int| self.pixel()),
    {
        let rgb = hex_to_rgb(&self.config.leds.color_mode);
        let pixel: [u8; 4] = [rgb[2], rgb[1], rgb[0], 0];
        let mut i: usize = 0;
        while i < frame.len()
            invariant
                i <= frame.len(),
                frame@.len() == old(frame)@.len(),
                pixel == self.pixel(),
                forall|k: int| 0 <= k < i ==> frame@[k] == pixel,
            decreases frame.len() - i,
        {
            frame[i] = pixel;
            i += 1;
        }
        assert(frame@ =~= Seq::new(old(frame)@.len(), |i: int| self.pixel()));
    }
}

} // verus!
