//! Ripples that run from a pressed key to both ends of the strip.

use vstd::prelude::*;
use crate::config::Config;
use crate::frame::{black, put, put_pixel};

verus! {

/// One lit pixel that moves, and the pixel that it left last.
#[derive(Debug, Clone, Copy)]
pub struct TrailPart {
    pub position: usize,
    pub last_position: usize,
    pub color: [u8; 4],
}

/// The two trails of one note: one runs to the start of the strip, the
/// other to its end.
#[derive(Debug)]
pub struct Ripple {
    pub left_trail: Vec<TrailPart>,
    pub right_trail: Vec<TrailPart>,
}

/// Mathematical value of a [`Ripple`].
pub struct Trails {
    pub left: Seq<TrailPart>,
    pub right: Seq<TrailPart>,
}

impl View for Ripple {
    type V = Trails;

    open spec fn view(&self) -> Trails {
        Trails { left: self.left_trail@, right: self.right_trail@ }
    }
}

/// All ripples, oldest first. None is ever taken out.
#[derive(Debug)]
pub struct Ripples {
    pub config: Config,
    pub ripples: Vec<Ripple>,
}

/// A part one step nearer to the start of the strip. At the first pixel it
/// stays and goes black.
pub open spec fn moved_left(part: TrailPart) -> TrailPart {
    if part.position >= 1 {
        TrailPart {
            position: (part.position - 1) as usize,
            last_position: part.position,
            color: part.color,
        }
    } else {
        TrailPart { color: black(), ..part }
    }
}

/// A part one step nearer to the end of a strip of `num_leds` pixels. Where
/// the next pixel would lie beyond the strip it stays and goes black.
pub open spec fn moved_right(part: TrailPart, num_leds: usize) -> TrailPart {
    if part.position + 1 < num_leds {
        TrailPart {
            position: (part.position + 1) as usize,
            last_position: part.position,
            color: part.color,
        }
    } else {
        TrailPart { color: black(), ..part }
    }
}

/// A ripple after one frame: every part of its left trail moved left, every
/// part of its right trail moved right.
pub open spec fn rippled(trails: Trails, num_leds: usize) -> Trails {
    Trails {
        left: Seq::new(trails.left.len(), |i: int| moved_left(trails.left[i])),
        right: Seq::new(trails.right.len(), |i: int| moved_right(trails.right[i], num_leds)),
    }
}

/// All ripples after one frame.
pub open spec fn rippled_all(ripples: Seq<Trails>, num_leds: usize) -> Seq<Trails> {
    Seq::new(ripples.len(), |i: int| rippled(ripples[i], num_leds))
}

/// The ripple that a note at `position` starts: one part in each trail, at
/// the note's position.
pub open spec fn spawned(position: usize, color: [u8; 4]) -> Trails {
    let part = TrailPart { position, last_position: position, color };
    Trails { left: seq![part], right: seq![part] }
}

/// The frame with one part painted: its pixel takes the part's color, then
/// the pixel that it left goes black. Positions beyond the frame are passed
/// over.
pub open spec fn paint_part(frame: Seq<[u8; 4]>, part: TrailPart) -> Seq<[u8; 4]> {
    put(put(frame, part.position, part.color), part.last_position, black())
}

/// The frame with the parts of one trail painted in order.
pub open spec fn paint_trail(frame: Seq<[u8; 4]>, trail: Seq<TrailPart>) -> Seq<[u8; 4]>
    decreases trail.len(),
{
    if trail.len() == 0 {
        frame
    } else {
        paint_part(paint_trail(frame, trail.drop_last()), trail.last())
    }
}

/// The frame with one ripple painted: its left trail, then its right trail.
pub open spec fn paint_ripple(frame: Seq<[u8; 4]>, trails: Trails) -> Seq<[u8; 4]> {
    paint_trail(paint_trail(frame, trails.left), trails.right)
}

/// The frame with all ripples painted, oldest first.
pub open spec fn paint_ripples(frame: Seq<[u8; 4]>, ripples: Seq<Trails>) -> Seq<[u8; 4]>
    decreases ripples.len(),
{
    if ripples.len() == 0 {
        frame
    } else {
        paint_ripple(paint_ripples(frame, ripples.drop_last()), ripples.last())
    }
}

/// Moves every part of a trail one step to the left.
fn move_trail_left(trail: &mut Vec<TrailPart>)
    ensures
        final(trail)@ == Seq::new(old(trail)@.len(), |i: int| moved_left(old(trail)@[i])),
{
    let mut i: usize = 0;
    while i < trail.len()
        invariant
            i <= trail.len(),
            trail.len() == old(trail).len(),
            forall|k: int| 0 <= k < i ==> trail@[k] == moved_left(old(trail)@[k]),
            forall|k: int| i <= k < trail.len() ==> trail@[k] == old(trail)@[k],
        decreases trail.len() - i,
    {
        let part = trail[i];
        if part.position >= 1 {
            trail[i] = TrailPart {
                position: part.position - 1,
                last_position: part.position,
                color: part.color,
            };
        } else {
            trail[i] = TrailPart {
                position: part.position,
                last_position: part.last_position,
                color: [0, 0, 0, 0],
            };
        }
        i += 1;
    }
}

/// Moves every part of a trail one step to the right.
fn move_trail_right(trail: &mut Vec<TrailPart>, num_leds: usize)
    ensures
        final(trail)@ == Seq::new(
            old(trail)@.len(),
            |i: int| moved_right(old(trail)@[i], num_leds),
        ),
{
    let mut i: usize = 0;
    while i < trail.len()
        invariant
            i <= trail.len(),
            trail.len() == old(trail).len(),
            forall|k: int| 0 <= k < i ==> trail@[k] == moved_right(old(trail)@[k], num_leds),
            forall|k: int| i <= k < trail.len() ==> trail@[k] == old(trail)@[k],
        decreases trail.len() - i,
    {
        let part = trail[i];
        if num_leds >= 1 && part.position < num_leds - 1 {
            trail[i] = TrailPart {
                position: part.position + 1,
                last_position: part.position,
                color: part.color,
            };
        } else {
            trail[i] = TrailPart {
                position: part.position,
                last_position: part.last_position,
                color: [0, 0, 0, 0],
            };
        }
        i += 1;
    }
}

/// Paints the parts of one trail in order.
fn draw_trail(trail: &Vec<TrailPart>, frame: &mut Vec<[u8; 4]>)
    ensures
        final(frame)@ == paint_trail(old(frame)@, trail@),
        final(frame)@.len() == old(frame)@.len(),
{
    let mut i: usize = 0;
    while i < trail.len()
        invariant
            i <= trail.len(),
            frame@.len() == old(frame)@.len(),
            frame@ == paint_trail(old(frame)@, trail@.take(i as int)),
        decreases trail.len() - i,
    {
        let part = trail[i];
        proof {
            assert(trail@.take(i + 1).drop_last() =~= trail@.take(i as int));
            assert(trail@.take(i + 1).last() == part);
        }
        put_pixel(frame, part.position, part.color);
        put_pixel(frame, part.last_position, [0, 0, 0, 0]);
        i += 1;
    }
    assert(trail@.take(i as int) =~= trail@);
}

impl Ripples {
    /// The ripples as mathematical values, oldest first.
    pub open spec fn trails(&self) -> Seq<Trails> {
        Seq::new(self.ripples@.len(), |i: int| self.ripples@[i]@)
    }

    /// No ripples, under a copy of `config`.
    pub fn new(config: &Config) -> (created: Ripples)
        ensures
            created.trails() == Seq::<Trails>::empty(),
            created.config@ == config@,
    {
        Ripples { config: config.clone(), ripples: Vec::new() }
    }

    /// Starts a ripple at `position`.
    pub fn add_ripple(&mut self, position: usize, color: [u8; 4])
        ensures
            final(self).trails() == old(self).trails().push(spawned(position, color)),
            final(self).config == old(self).config,
    {
        let part = TrailPart { position, last_position: position, color };
        let mut left_trail: Vec<TrailPart> = Vec::new();
        left_trail.push(part);
        let mut right_trail: Vec<TrailPart> = Vec::new();
        right_trail.push(part);
        assert(left_trail@ =~= seq![part]);
        assert(right_trail@ =~= seq![part]);
        self.ripples.push(Ripple { left_trail, right_trail });
        assert(self.trails() =~= old(self).trails().push(spawned(position, color)));
    }

    /// Moves every ripple by one frame.
    pub fn update(&mut self)
        ensures
            final(self).trails() == rippled_all(old(self).trails(), old(self).config@.leds.num_leds),
            final(self).config == old(self).config,
    {
        let num_leds = self.config.leds.num_leds;
        let mut i: usize = 0;
        while i < self.ripples.len()
            invariant
                i <= self.ripples.len(),
                self.ripples.len() == old(self).ripples.len(),
                self.config == old(self).config,
                num_leds == self.config@.leds.num_leds,
                forall|k: int|
                    0 <= k < i ==> self.ripples@[k]@ == rippled(old(self).ripples@[k]@, num_leds),
                forall|k: int|
                    i <= k < self.ripples.len() ==> self.ripples@[k] == old(self).ripples@[k],
            decreases self.ripples.len() - i,
        {
            move_trail_left(&mut self.ripples[i].left_trail);
            move_trail_right(&mut self.ripples[i].right_trail, num_leds);
            i += 1;
        }
        assert(self.trails() =~= rippled_all(old(self).trails(), num_leds));
    }

    /// Paints every ripple into the frame, oldest first.
    pub fn draw(&mut self, frame: &mut Vec<[u8; 4]>)
        ensures
            final(frame)@ == paint_ripples(old(frame)@, old(self).trails()),
            final(frame)@.len() == old(frame)@.len(),
            *final(self) == *old(self),
    {
        let mut i: usize = 0;
        while i < self.ripples.len()
            invariant
                i <= self.ripples.len(),
                *self == *old(self),
                frame@.len() == old(frame)@.len(),
                frame@ == paint_ripples(old(frame)@, self.trails().take(i as int)),
            decreases self.ripples.len() - i,
        {
            proof {
                assert(self.trails().take(i + 1).drop_last() =~= self.trails().take(i as int));
                assert(self.trails().take(i + 1).last() == self.ripples@[i as int]@);
            }
            draw_trail(&self.ripples[i].left_trail, frame);
            draw_trail(&self.ripples[i].right_trail, frame);
            i += 1;
        }
        assert(self.trails().take(i as int) =~= self.trails());
    }
}

/// One ripple after `frames` frames.
pub open spec fn rippled_after(trails: Trails, num_leds: usize, frames: nat) -> Trails
    decreases frames,
{
    if frames == 0 {
        trails
    } else {
        rippled(rippled_after(trails, num_leds, (frames - 1) as nat), num_leds)
    }
}

/// All ripples after `frames` frames.
pub open spec fn rippled_all_after(ripples: Seq<Trails>, num_leds: usize, frames: nat) -> Seq<
    Trails,
>
    decreases frames,
{
    if frames == 0 {
        ripples
    } else {
        rippled_all(rippled_all_after(ripples, num_leds, (frames - 1) as nat), num_leds)
    }
}

/// Ripples do not affect each other and none is lost: after any number of
/// frames the list holds, in place, each ripple as it is when followed on
/// its own.
pub proof fn lemma_ripples_move_independently(ripples: Seq<Trails>, num_leds: usize, frames: nat)
    ensures
        rippled_all_after(ripples, num_leds, frames) == Seq::new(
            ripples.len(),
            |i: int| rippled_after(ripples[i], num_leds, frames),
        ),
    decreases frames,
{
    let each = Seq::new(ripples.len(), |i: int| rippled_after(ripples[i], num_leds, frames));
    if frames == 0 {
        assert(each =~= ripples);
    } else {
        lemma_ripples_move_independently(ripples, num_leds, (frames - 1) as nat);
        assert(rippled_all_after(ripples, num_leds, frames) =~= each);
    }
}

/// The ripple of a note on the strip, `frames` frames after it started: its
/// left part has come `frames` pixels nearer to the first pixel and stays
/// there, its right part `frames` pixels nearer to the last pixel and stays
/// there. A part keeps the note's color until the frame in which it would
/// leave the strip, and is black from then on.
pub proof fn lemma_ripple_reach(position: usize, color: [u8; 4], num_leds: usize, frames: nat)
    requires
        position < num_leds,
    ensures
        ({
            let trails = rippled_after(spawned(position, color), num_leds, frames);
            &&& trails.left.len() == 1
            &&& trails.right.len() == 1
            &&& trails.left[0].position == if frames <= position {
                position - frames
            } else {
                0
            }
            &&& trails.right[0].position == if position + frames <= num_leds - 1 {
                position + frames
            } else {
                num_leds - 1
            }
            &&& trails.left[0].color == if frames <= position {
                color
            } else {
                black()
            }
            &&& trails.right[0].color == if position + frames <= num_leds - 1 {
                color
            } else {
                black()
            }
        }),
    decreases frames,
{
    if frames > 0 {
        lemma_ripple_reach(position, color, num_leds, (frames - 1) as nat);
    }
}

} // verus!
