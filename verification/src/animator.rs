//! The active animation and the single place from which it is driven.
//!
//! There are four animations. Exactly one is active; choosing one, also the
//! one that is active already, starts it from nothing.

use vstd::prelude::*;
use vstd::string::*;
use crate::config::{Config, LedsSettings, Settings};
use crate::fade::{faded_all, lit, released, within_budget, Fade, Fades};
use crate::frame::{leds_fit, paint_leds, Led};
use crate::ripple::{paint_ripples, rippled_all, spawned, Ripples, Trails};
use crate::steady::{darkened, DefaultAnimator, StaticColor};
use crate::color::solid_pixel;
use crate::text::same_text;

verus! {

/// The four animations.
pub enum AnimationKind {
    Fade,
    Ripple,
    Static,
    Default,
}

/// The animation that a name stands for: `"fade"`, `"ripple"` and
/// `"static"` name their own, every other name the default.
pub open spec fn kind_of(name: Seq<char>) -> AnimationKind {
    if name == "fade"@ {
        AnimationKind::Fade
    } else if name == "ripple"@ {
        AnimationKind::Ripple
    } else if name == "static"@ {
        AnimationKind::Static
    } else {
        AnimationKind::Default
    }
}

/// An animation with its state.
pub enum AnimatorEnum {
    Fades(Fades),
    Ripples(Ripples),
    Static(StaticColor),
    Default(DefaultAnimator),
}

/// What an animation holds, as mathematical values.
pub enum Scene {
    Fades(Seq<Fade>),
    Ripples(Seq<Trails>),
    Static,
    Default(Seq<Led>),
}

impl View for AnimatorEnum {
    type V = Scene;

    open spec fn view(&self) -> Scene {
        match self {
            AnimatorEnum::Fades(fades) => Scene::Fades(fades.fades@),
            AnimatorEnum::Ripples(ripples) => Scene::Ripples(ripples.trails()),
            AnimatorEnum::Static(_) => Scene::Static,
            AnimatorEnum::Default(default) => Scene::Default(default.leds@),
        }
    }
}

impl AnimatorEnum {
    /// The settings under which the animation runs.
    pub open spec fn settings(&self) -> Settings {
        match self {
            AnimatorEnum::Fades(fades) => fades.config@,
            AnimatorEnum::Ripples(ripples) => ripples.config@,
            AnimatorEnum::Static(fixed) => fixed.config@,
            AnimatorEnum::Default(default) => default.config@,
        }
    }
}

/// The scene with which an animation of the given kind starts.
pub open spec fn opening(kind: AnimationKind) -> Scene {
    match kind {
        AnimationKind::Fade => Scene::Fades(Seq::empty()),
        AnimationKind::Ripple => Scene::Ripples(Seq::empty()),
        AnimationKind::Static => Scene::Static,
        AnimationKind::Default => Scene::Default(Seq::empty()),
    }
}

/// The scene after one frame.
pub open spec fn advanced(scene: Scene, leds: LedsSettings) -> Scene {
    match scene {
        Scene::Fades(fades) => Scene::Fades(faded_all(fades, leds.fade as int)),
        Scene::Ripples(ripples) => Scene::Ripples(rippled_all(ripples, leds.num_leds)),
        Scene::Static => Scene::Static,
        Scene::Default(lit_keys) => Scene::Default(lit_keys),
    }
}

/// The scene after a key at `position` was pressed.
pub open spec fn pressed(scene: Scene, leds: LedsSettings, position: usize, color: [u8; 4])
    -> Scene {
    match scene {
        Scene::Fades(fades) => Scene::Fades(
            fades.push(Fade { position, color, fade: leds.fade, started: false }),
        ),
        Scene::Ripples(ripples) => Scene::Ripples(ripples.push(spawned(position, color))),
        Scene::Static => Scene::Static,
        Scene::Default(lit_keys) => Scene::Default(lit_keys.push(Led { position, color })),
    }
}

/// Whether `after` is the scene `before` once the key at `position` was
/// released: every fading note there starts to fade, the key that was lit
/// first there goes dark, ripples and the fixed color take no notice.
pub open spec fn let_go(before: Scene, position: usize, after: Scene) -> bool {
    match before {
        Scene::Fades(fades) => after == Scene::Fades(released(fades, position)),
        Scene::Ripples(_) => after == before,
        Scene::Static => after == before,
        Scene::Default(lit_keys) => after matches Scene::Default(now) && darkened(
            lit_keys,
            position,
            now,
        ),
    }
}

/// The frame with the scene painted into it.
pub open spec fn painted(scene: Scene, leds: LedsSettings, frame: Seq<[u8; 4]>) -> Seq<[u8; 4]> {
    match scene {
        Scene::Fades(fades) => paint_leds(frame, lit(fades)),
        Scene::Ripples(ripples) => paint_ripples(frame, ripples),
        Scene::Static => Seq::new(frame.len(), |i: int| solid_pixel(leds.color_mode)),
        Scene::Default(lit_keys) => paint_leds(frame, lit_keys),
    }
}

/// Whether the scene can be painted into a frame of `len` pixels: fading
/// notes and lit keys must lie on it.
pub open spec fn paintable(scene: Scene, len: nat) -> bool {
    match scene {
        Scene::Fades(fades) => leds_fit(lit(fades), len),
        Scene::Ripples(_) => true,
        Scene::Static => true,
        Scene::Default(lit_keys) => leds_fit(lit_keys, len),
    }
}

/// The active animation, its name, and the settings from which a newly
/// chosen animation is made.
pub struct Animator {
    pub animation: String,
    pub animator: AnimatorEnum,
    pub config: Config,
}

impl Animator {
    /// The settings that were given when the animator was made.
    pub open spec fn settings(&self) -> Settings {
        self.config@
    }

    /// What the active animation holds.
    pub open spec fn scene(&self) -> Scene {
        self.animator@
    }

    /// The settings under which the active animation runs.
    pub open spec fn leds(&self) -> LedsSettings {
        self.animator.settings().leds
    }

    /// No fading note has more frames left than the budget of the active
    /// animation allows.
    pub open spec fn wf(&self) -> bool {
        self.scene() matches Scene::Fades(fades) ==> within_budget(fades, self.leds().fade as int)
    }

    /// Tells whether no fading note has more frames left than the budget
    /// allows.
    pub fn is_wf(&self) -> (ok: bool)
        ensures
            ok == self.wf(),
    {
        match &self.animator {
            AnimatorEnum::Fades(fades) => fades.is_wf(),
            _ => true,
        }
    }

    /// Makes the animation that `animation` names, with nothing in it.
    fn make(config: &Config, animation: &str) -> (made: AnimatorEnum)
        ensures
            made@ == opening(kind_of(animation@)),
            made.settings() == config@,
    {
        if same_text(animation, "fade") {
            AnimatorEnum::Fades(Fades::new(config))
        } else if same_text(animation, "ripple") {
            AnimatorEnum::Ripples(Ripples::new(config))
        } else if same_text(animation, "static") {
            AnimatorEnum::Static(StaticColor::new(config))
        } else {
            AnimatorEnum::Default(DefaultAnimator::new(config))
        }
    }

    /// An animator that runs the animation that `animation` names, under a
    /// copy of `config`.
    pub fn new(config: &Config, animation: &String) -> (created: Self)
        ensures
            created.animation@ == animation@,
            created.settings() == config@,
            created.animator.settings() == config@,
            created.scene() == opening(kind_of(animation@)),
            created.wf(),
    {
        Self {
            config: config.clone(),
            animation: animation.clone(),
            animator: Self::make(config, animation.as_str()),
        }
    }

    /// Makes the animation that `animation` names the active one. What the
    /// animation before it held is dropped, whichever it was.
    pub fn set_animation(&mut self, animation: String)
        ensures
            final(self).animation@ == animation@,
            final(self).settings() == old(self).settings(),
            final(self).animator.settings() == old(self).settings(),
            final(self).scene() == opening(kind_of(animation@)),
            final(self).wf(),
    {
        self.animator = Self::make(&self.config, animation.as_str());
        self.animation = animation;
    }

    /// Advances the active animation by one frame.
    pub fn update(&mut self)
        requires
            old(self).wf(),
        ensures
            final(self).scene() == advanced(old(self).scene(), old(self).leds()),
            final(self).animation == old(self).animation,
            final(self).config == old(self).config,
            final(self).animator.settings() == old(self).animator.settings(),
            final(self).wf(),
    {
        match &mut self.animator {
            AnimatorEnum::Fades(fades) => fades.update(),
            AnimatorEnum::Ripples(ripples) => ripples.update(),
            AnimatorEnum::Default(_) => {},
            AnimatorEnum::Static(_) => {},
        }
    }

    /// Tells whether the active animation can be painted into a frame of
    /// `len` pixels.
    pub fn fits(&self, len: usize) -> (fit: bool)
        ensures
            fit == paintable(self.scene(), len as nat),
    {
        match &self.animator {
            AnimatorEnum::Fades(fades) => fades.fits(len),
            AnimatorEnum::Ripples(_) => true,
            AnimatorEnum::Default(default) => default.fits(len),
            AnimatorEnum::Static(_) => true,
        }
    }

    /// Paints the active animation into the frame.
    pub fn draw(&mut self, frame: &mut Vec<[u8; 4]>)
        requires
            paintable(old(self).scene(), old(frame)@.len()),
        ensures
            final(frame)@ == painted(old(self).scene(), old(self).leds(), old(frame)@),
            final(frame)@.len() == old(frame)@.len(),
            *final(self) == *old(self),
    {
        match &mut self.animator {
            AnimatorEnum::Fades(fades) => fades.draw(frame),
            AnimatorEnum::Ripples(ripples) => ripples.draw(frame),
            AnimatorEnum::Default(default) => default.draw(frame),
            AnimatorEnum::Static(fixed) => fixed.draw(frame),
        }
    }

    /// Tells the active animation that the key at `led_index` was pressed.
    pub fn note_on(&mut self, led_index: usize, color: [u8; 4])
        ensures
            final(self).scene() == pressed(old(self).scene(), old(self).leds(), led_index, color),
            final(self).animation == old(self).animation,
            final(self).config == old(self).config,
            final(self).animator.settings() == old(self).animator.settings(),
            old(self).wf() ==> final(self).wf(),
    {
        match &mut self.animator {
            AnimatorEnum::Fades(fades) => fades.add_fade(led_index, color),
            AnimatorEnum::Ripples(ripples) => ripples.add_ripple(led_index, color),
            AnimatorEnum::Default(default) => default.note_on(led_index, color),
            AnimatorEnum::Static(_) => {},
        }
    }

    /// Tells the active animation that the key at `led_index` was released.
    /// The color is not used.
    pub fn note_off(&mut self, led_index: usize, _color: [u8; 4])
        ensures
            let_go(old(self).scene(), led_index, final(self).scene()),
            final(self).animation == old(self).animation,
            final(self).config == old(self).config,
            final(self).animator.settings() == old(self).animator.settings(),
            old(self).wf() ==> final(self).wf(),
    {
        match &mut self.animator {
            AnimatorEnum::Fades(fades) => fades.start_fade(led_index),
            AnimatorEnum::Ripples(_) => {},
            AnimatorEnum::Default(default) => default.note_off(led_index),
            AnimatorEnum::Static(_) => {},
        }
    }
}

} // verus!
