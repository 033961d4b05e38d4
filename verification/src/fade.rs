//! Notes that stay lit while the key is held and fade out after its release.

use vstd::prelude::*;
use crate::config::Config;
use crate::frame::{leds_fit, paint_leds, Led};

verus! {

/// One fading note.
#[derive(Debug, Clone, Copy)]
pub struct Fade {
    pub position: usize,
    pub color: [u8; 4],
    /// Frames that are left before the note is gone.
    pub fade: i8,
    /// Whether the key was released, so that the frames are counted down.
    pub started: bool,
}

/// The notes that are fading, oldest first.
#[derive(Debug)]
pub struct Fades {
    pub fades: Vec<Fade>,
    pub config: Config,
}

/// A channel scaled by the share `remaining / budget`, rounded down.
pub open spec fn dimmed(channel: u8, remaining: int, budget: int) -> u8 {
    (channel * remaining / budget) as u8
}

/// The frames that a note has left after this frame.
pub open spec fn remaining_after(fade: Fade) -> int {
    if fade.started {
        fade.fade - 1
    } else {
        fade.fade as int
    }
}

/// Whether a note is still there after this frame.
pub open spec fn survives(fade: Fade) -> bool {
    remaining_after(fade) > 0
}

/// A surviving note after one frame: its red, green and blue are scaled by
/// the share of the budget that was left, its fourth byte stays, and a
/// released note has one frame less.
pub open spec fn faded(fade: Fade, budget: int) -> Fade {
    Fade {
        position: fade.position,
        color: [
            dimmed(fade.color[0], fade.fade as int, budget),
            dimmed(fade.color[1], fade.fade as int, budget),
            dimmed(fade.color[2], fade.fade as int, budget),
            fade.color[3],
        ],
        fade: remaining_after(fade) as i8,
        started: fade.started,
    }
}

/// The notes after one frame, in their order: those that survive, each
/// faded by one step.
pub open spec fn faded_all(fades: Seq<Fade>, budget: int) -> Seq<Fade>
    decreases fades.len(),
{
    if fades.len() == 0 {
        Seq::empty()
    } else if survives(fades.last()) {
        faded_all(fades.drop_last(), budget).push(faded(fades.last(), budget))
    } else {
        faded_all(fades.drop_last(), budget)
    }
}

/// The notes with every one at `position` marked as released.
pub open spec fn released(fades: Seq<Fade>, position: usize) -> Seq<Fade> {
    Seq::new(
        fades.len(),
        |i: int|
            if fades[i].position == position {
                Fade { started: true, ..fades[i] }
            } else {
                fades[i]
            },
    )
}

/// The pixels that the notes light, in the notes' order.
pub open spec fn lit(fades: Seq<Fade>) -> Seq<Led> {
    Seq::new(fades.len(), |i: int| Led { position: fades[i].position, color: fades[i].color })
}

/// Whether no note has more frames left than `budget`.
pub open spec fn within_budget(fades: Seq<Fade>, budget: int) -> bool {
    forall|i: int| 0 <= i < fades.len() ==> (#[trigger] fades[i]).fade <= budget
}

/// Scales a channel by `remaining / budget`.
fn dim(channel: u8, remaining: i8, budget: i8) -> (scaled: u8)
    requires
        1 <= remaining <= budget,
    ensures
        scaled == dimmed(channel, remaining as int, budget as int),
        scaled <= channel,
{
    assert(0 <= channel * remaining <= 255 * 127) by (nonlinear_arith)
        requires
            0 <= channel <= 255,
            1 <= remaining <= 127,
    ;
    proof {
        lemma_dimmed_bounds(channel, remaining as int, budget as int);
    }
    let product: u32 = channel as u32 * remaining as u32;
    (product / budget as u32) as u8
}

impl Fades {
    /// The number of frames over which a released note fades.
    pub open spec fn budget(&self) -> int {
        self.config@.leds.fade as int
    }

    /// No note has more frames left than the budget allows.
    pub open spec fn wf(&self) -> bool {
        within_budget(self.fades@, self.budget())
    }

    /// Tells whether no note has more frames left than the budget allows.
    pub fn is_wf(&self) -> (ok: bool)
        ensures
            ok == self.wf(),
    {
        let budget = self.config.leds.fade;
        let mut i: usize = 0;
        while i < self.fades.len()
            invariant
                i <= self.fades.len(),
                budget == self.config@.leds.fade,
                forall|k: int| 0 <= k < i ==> (#[trigger] self.fades@[k]).fade <= budget,
            decreases self.fades.len() - i,
        {
            if self.fades[i].fade > budget {
                return false;
            }
            i += 1;
        }
        true
    }

    /// No fading notes, under a copy of `config`.
    pub fn new(config: &Config) -> (created: Fades)
        ensures
            created.fades@ == Seq::<Fade>::empty(),
            created.config@ == config@,
            created.wf(),
    {
        Fades { fades: Vec::new(), config: config.clone() }
    }

    /// Adds a note with the full budget, held until it is released.
    pub fn add_fade(&mut self, position: usize, color: [u8; 4])
        ensures
            final(self).fades@ == old(self).fades@.push(
                Fade { position, color, fade: old(self).config@.leds.fade, started: false },
            ),
            final(self).config == old(self).config,
            old(self).wf() ==> final(self).wf(),
    {
        self.fades.push(Fade { position, color, fade: self.config.leds.fade, started: false });
    }

    /// Marks every note at `position` as released.
    pub fn start_fade(&mut self, position: usize)
        ensures
            final(self).fades@ == released(old(self).fades@, position),
            final(self).config == old(self).config,
            old(self).wf() ==> final(self).wf(),
    {
        let mut i: usize = 0;
        while i < self.fades.len()
            invariant
                i <= self.fades.len(),
                self.fades.len() == old(self).fades.len(),
                self.config == old(self).config,
                forall|k: int|
                    0 <= k < i ==> self.fades@[k] == released(old(self).fades@, position)[k],
                forall|k: int| i <= k < self.fades.len() ==> self.fades@[k] == old(self).fades@[k],
            decreases self.fades.len() - i,
        {
            if self.fades[i].position == position {
                self.fades[i].started = true;
            }
            i += 1;
        }
        assert(self.fades@ =~= released(old(self).fades@, position));
    }

    /// Advances every note by one frame and drops those that are over.
    pub fn update(&mut self)
        requires
            old(self).wf(),
        ensures
            final(self).fades@ == faded_all(old(self).fades@, old(self).budget()),
            final(self).config == old(self).config,
            final(self).wf(),
    {
        let budget = self.config.leds.fade;
        let mut kept: Vec<Fade> = Vec::new();
        let mut i: usize = 0;
        while i < self.fades.len()
            invariant
                i <= self.fades.len(),
                self.fades == old(self).fades,
                self.config == old(self).config,
                budget == self.config@.leds.fade,
                within_budget(self.fades@, budget as int),
                kept@ == faded_all(self.fades@.take(i as int), budget as int),
                within_budget(kept@, budget as int),
            decreases self.fades.len() - i,
        {
            let fade = self.fades[i];
            proof {
                assert(self.fades@.take(i + 1).drop_last() =~= self.fades@.take(i as int));
                assert(self.fades@.take(i + 1).last() == fade);
            }
            if fade.fade > 0 && !(fade.started && fade.fade == 1) {
                let remaining = if fade.started {
                    fade.fade - 1
                } else {
                    fade.fade
                };
                kept.push(
                    Fade {
                        position: fade.position,
                        color: [
                            dim(fade.color[0], fade.fade, budget),
                            dim(fade.color[1], fade.fade, budget),
                            dim(fade.color[2], fade.fade, budget),
                            fade.color[3],
                        ],
                        fade: remaining,
                        started: fade.started,
                    },
                );
            }
            i += 1;
        }
        assert(self.fades@.take(i as int) =~= self.fades@);
        self.fades = kept;
    }

    /// Tells whether every note lies on a frame of `len` pixels.
    pub fn fits(&self, len: usize) -> (fit: bool)
        ensures
            fit == leds_fit(lit(self.fades@), len as nat),
    {
        let mut i: usize = 0;
        while i < self.fades.len()
            invariant
                i <= self.fades.len(),
                forall|k: int| 0 <= k < i ==> (#[trigger] lit(self.fades@)[k]).position < len,
            decreases self.fades.len() - i,
        {
            if self.fades[i].position >= len {
                assert(lit(self.fades@)[i as int].position >= len);
                return false;
            }
            i += 1;
        }
        true
    }

    /// Paints every note into the frame, oldest first.
    pub fn draw(&self, frame: &mut Vec<[u8; 4]>)
        requires
            leds_fit(lit(self.fades@), old(frame)@.len()),
        ensures
            final(frame)@ == paint_leds(old(frame)@, lit(self.fades@)),
            final(frame)@.len() == old(frame)@.len(),
    {
        let mut i: usize = 0;
        while i < self.fades.len()
            invariant
                i <= self.fades.len(),
                frame@.len() == old(frame)@.len(),
                leds_fit(lit(self.fades@), frame@.len()),
                frame@ == paint_leds(old(frame)@, lit(self.fades@).take(i as int)),
            decreases self.fades.len() - i,
        {
            let fade = self.fades[i];
            proof {
                let leds = lit(self.fades@);
                assert(leds.take(i + 1).drop_last() =~= leds.take(i as int));
                assert(leds.take(i + 1).last() == leds[i as int]);
                assert(leds[i as int].position < frame@.len());
            }
            frame[fade.position] = fade.color;
            i += 1;
        }
        assert(lit(self.fades@).take(i as int) =~= lit(self.fades@));
    }
}

/// The notes after `frames` frames.
pub open spec fn faded_all_after(fades: Seq<Fade>, budget: int, frames: nat) -> Seq<Fade>
    decreases frames,
{
    if frames == 0 {
        fades
    } else {
        faded_all(faded_all_after(fades, budget, (frames - 1) as nat), budget)
    }
}

/// What has become of one note after `frames` frames; `None` once it is gone.
pub open spec fn fade_after(fade: Fade, budget: int, frames: nat) -> Option<Fade>
    decreases frames,
{
    if frames == 0 {
        Some(fade)
    } else {
        match fade_after(fade, budget, (frames - 1) as nat) {
            Some(earlier) => if survives(earlier) {
                Some(faded(earlier, budget))
            } else {
                None
            },
            None => None,
        }
    }
}

/// What is left of the notes after `frames` frames when each is followed on
/// its own.
pub open spec fn survivors_after(fades: Seq<Fade>, budget: int, frames: nat) -> Seq<Fade>
    decreases fades.len(),
{
    if fades.len() == 0 {
        Seq::empty()
    } else {
        match fade_after(fades.last(), budget, frames) {
            Some(later) => survivors_after(fades.drop_last(), budget, frames).push(later),
            None => survivors_after(fades.drop_last(), budget, frames),
        }
    }
}

proof fn lemma_survivors_at_once(fades: Seq<Fade>, budget: int)
    ensures
        survivors_after(fades, budget, 0) == fades,
    decreases fades.len(),
{
    if fades.len() > 0 {
        lemma_survivors_at_once(fades.drop_last(), budget);
        assert(fades.drop_last().push(fades.last()) =~= fades);
    }
}

proof fn lemma_survivors_step(fades: Seq<Fade>, budget: int, frames: nat)
    ensures
        faded_all(survivors_after(fades, budget, frames), budget) == survivors_after(
            fades,
            budget,
            frames + 1,
        ),
    decreases fades.len(),
{
    if fades.len() > 0 {
        let rest = fades.drop_last();
        lemma_survivors_step(rest, budget, frames);
        match fade_after(fades.last(), budget, frames) {
            Some(later) => {
                let before = survivors_after(rest, budget, frames);
                assert(before.push(later).drop_last() =~= before);
                assert(before.push(later).last() == later);
            },
            None => {},
        }
    }
}

/// Notes do not affect each other: after any number of frames the list
/// holds, in their order, exactly the notes that are still there when each
/// is followed on its own.
pub proof fn lemma_notes_fade_independently(fades: Seq<Fade>, budget: int, frames: nat)
    ensures
        faded_all_after(fades, budget, frames) == survivors_after(fades, budget, frames),
    decreases frames,
{
    if frames == 0 {
        lemma_survivors_at_once(fades, budget);
    } else {
        lemma_notes_fade_independently(fades, budget, (frames - 1) as nat);
        lemma_survivors_step(fades, budget, (frames - 1) as nat);
    }
}

/// A note that is released with the full budget left is there for exactly
/// `budget` frames: after fewer frames it is still in place with one frame
/// less for each that passed, and from the frame that uses the budget up it
/// is gone.
pub proof fn lemma_released_note_lifetime(fade: Fade, budget: i8, frames: nat)
    requires
        fade.started,
        fade.fade == budget,
        budget >= 1,
    ensures
        frames < budget ==> (fade_after(fade, budget as int, frames) matches Some(later)
            && later.fade == budget - frames && later.started && later.position
            == fade.position),
        frames >= budget ==> fade_after(fade, budget as int, frames) is None,
    decreases frames,
{
    if frames > 0 {
        lemma_released_note_lifetime(fade, budget, (frames - 1) as nat);
    }
}

/// While a note fades no channel of its color grows, and the fourth byte
/// stays as it is.
pub proof fn lemma_fading_never_brightens(fade: Fade, budget: int)
    requires
        1 <= fade.fade <= budget,
    ensures
        faded(fade, budget).color[0] <= fade.color[0],
        faded(fade, budget).color[1] <= fade.color[1],
        faded(fade, budget).color[2] <= fade.color[2],
        faded(fade, budget).color[3] == fade.color[3],
{
    lemma_dimmed_bounds(fade.color[0], fade.fade as int, budget);
    lemma_dimmed_bounds(fade.color[1], fade.fade as int, budget);
    lemma_dimmed_bounds(fade.color[2], fade.fade as int, budget);
}

/// A share of a channel is at most the channel, and all of it with the full
/// budget left.
pub proof fn lemma_dimmed_bounds(channel: u8, remaining: int, budget: int)
    requires
        1 <= remaining <= budget,
    ensures
        dimmed(channel, remaining, budget) <= channel,
        channel * remaining / budget <= channel,
        0 <= channel * remaining / budget,
        remaining == budget ==> dimmed(channel, remaining, budget) == channel,
{
    assert(0 <= channel * remaining / budget <= channel) by (nonlinear_arith)
        requires
            0 <= channel,
            1 <= remaining <= budget,
    ;
    assert(channel * budget / budget == channel) by (nonlinear_arith)
        requires
            budget >= 1,
    ;
}

/// A note that is held with the full budget left stays as it is, frame
/// after frame.
pub proof fn lemma_held_note_is_constant(fade: Fade, budget: i8, frames: nat)
    requires
        !fade.started,
        fade.fade == budget,
        budget >= 1,
    ensures
        fade_after(fade, budget as int, frames) == Some(fade),
    decreases frames,
{
    if frames > 0 {
        lemma_held_note_is_constant(fade, budget, (frames - 1) as nat);
        lemma_dimmed_bounds(fade.color[0], budget as int, budget as int);
        lemma_dimmed_bounds(fade.color[1], budget as int, budget as int);
        lemma_dimmed_bounds(fade.color[2], budget as int, budget as int);
        assert(faded(fade, budget as int).color =~= fade.color);
    }
}

/// Fading moves no note: where every note lies on a frame, every note that
/// is left after a frame still does.
pub proof fn lemma_fading_keeps_fit(fades: Seq<Fade>, budget: int, len: nat)
    requires
        leds_fit(lit(fades), len),
    ensures
        leds_fit(lit(faded_all(fades, budget)), len),
    decreases fades.len(),
{
    if fades.len() > 0 {
        let rest = fades.drop_last();
        assert forall|i: int| 0 <= i < lit(rest).len() implies (#[trigger] lit(rest)[i]).position
            < len by {
            assert(lit(fades)[i].position < len);
        }
        lemma_fading_keeps_fit(rest, budget, len);
        assert(lit(fades)[fades.len() - 1].position < len);
        let kept = faded_all(rest, budget);
        let now = faded_all(fades, budget);
        assert forall|i: int| 0 <= i < lit(now).len() implies (#[trigger] lit(now)[i]).position
            < len by {
            if i < kept.len() {
                assert(lit(kept)[i].position < len);
            }
        }
    }
}

} // verus!
