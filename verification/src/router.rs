//! The path of a note from the input device to the frame.
//!
//! The producer turns raw messages into note events that carry the note's
//! position. The renderer takes at most one event from the queue in each
//! tick, hands it to the active animation, advances the animation and paints
//! the frame.

use vstd::prelude::*;
use crate::animator::{
    advanced, let_go, paintable, painted, pressed, Animator, AnimatorEnum, Scene,
};
use crate::color::ColorMode;
use crate::config::{Config, LedsSettings};
use crate::fade::{lemma_fading_keeps_fit, lit};
use crate::steady::lemma_darkened_keeps_positions;
use crate::midi::{event_type_of, get_midi_event_type, MidiEventType};
use crate::position::{get_note_position, note_position, placeable};

verus! {

/// The three bytes of a raw message that are read: the status, the note and
/// the velocity.
#[derive(Debug, Clone, Copy)]
pub struct RawMessage {
    pub status: u8,
    pub note: u8,
    pub velocity: u8,
}

/// A press or release of a key, with the key's position on the strip.
#[derive(Debug, Clone, Copy)]
pub struct NoteEvent {
    pub kind: MidiEventType,
    pub led_index: usize,
}

/// What a look at the queue found, without waiting.
#[derive(Debug, Clone, Copy)]
pub enum Polled {
    /// The oldest event that was waiting.
    Event(NoteEvent),
    /// Nothing is waiting.
    Empty,
    /// The producer is gone and nothing will come any more.
    Disconnected,
}

/// How a tick ended.
#[derive(Debug, Clone, Copy, PartialEq, Eq, Structural)]
pub enum Tick {
    /// The frame was painted and is to be shown.
    Rendered,
    /// The producer is gone: nothing was painted, and the renderer stops.
    Stopped,
}

/// Whether a message is a press or a release.
pub open spec fn is_note(message: RawMessage) -> bool {
    event_type_of(message.status, message.velocity) != MidiEventType::ControlChange
}

/// The event that a press or release becomes on a strip with the given
/// settings.
pub open spec fn event_of(message: RawMessage, config: Config) -> NoteEvent {
    NoteEvent {
        kind: event_type_of(message.status, message.velocity),
        led_index: note_position(config@.leds, message.note) as usize,
    }
}

/// The events that `messages` become, in their order: presses and releases
/// are kept, everything else is dropped.
pub open spec fn events_of(messages: Seq<RawMessage>, config: Config) -> Seq<NoteEvent>
    decreases messages.len(),
{
    if messages.len() == 0 {
        Seq::empty()
    } else if is_note(messages.last()) {
        events_of(messages.drop_last(), config).push(event_of(messages.last(), config))
    } else {
        events_of(messages.drop_last(), config)
    }
}

/// Whether the note of every press and release among `messages` has a
/// position.
pub open spec fn all_placeable(messages: Seq<RawMessage>, config: Config) -> bool {
    forall|i: int|
        0 <= i < messages.len() && is_note(#[trigger] messages[i]) ==> placeable(
            config@.leds,
            messages[i].note,
        )
}

/// Turns one raw message into a note event. A message that is neither a
/// press nor a release gives none.
pub fn classify(message: RawMessage, config: &Config) -> (event: Option<NoteEvent>)
    requires
        is_note(message) ==> placeable(config@.leds, message.note),
    ensures
        event == if is_note(message) {
            Some(event_of(message, *config))
        } else {
            None
        },
{
    match get_midi_event_type(message.status, message.velocity) {
        MidiEventType::NoteOn => Some(
            NoteEvent {
                kind: MidiEventType::NoteOn,
                led_index: get_note_position(message.note, config),
            },
        ),
        MidiEventType::NoteOff => Some(
            NoteEvent {
                kind: MidiEventType::NoteOff,
                led_index: get_note_position(message.note, config),
            },
        ),
        MidiEventType::ControlChange => None,
    }
}

/// Turns the messages of one read into the events to queue, in their order.
pub fn note_events(messages: &Vec<RawMessage>, config: &Config) -> (events: Vec<NoteEvent>)
    requires
        all_placeable(messages@, *config),
    ensures
        events@ == events_of(messages@, *config),
{
    let mut events: Vec<NoteEvent> = Vec::new();
    let mut i: usize = 0;
    while i < messages.len()
        invariant
            i <= messages.len(),
            all_placeable(messages@, *config),
            events@ == events_of(messages@.take(i as int), *config),
        decreases messages.len() - i,
    {
        proof {
            assert(messages@.take(i + 1).drop_last() =~= messages@.take(i as int));
            assert(messages@.take(i + 1).last() == messages@[i as int]);
        }
        match classify(messages[i], config) {
            Some(event) => {
                events.push(event);
            },
            None => {},
        }
        i += 1;
    }
    assert(messages@.take(i as int) =~= messages@);
    events
}

/// Whether `after` is the scene `before` once `event` was handed to it with
/// the resolved `color`.
pub open spec fn routed(
    before: Scene,
    leds: LedsSettings,
    event: NoteEvent,
    color: [u8; 4],
    after: Scene,
) -> bool {
    match event.kind {
        MidiEventType::NoteOn => after == pressed(before, leds, event.led_index, color),
        MidiEventType::NoteOff => let_go(before, event.led_index, after),
        MidiEventType::ControlChange => after == before,
    }
}

/// Hands an event with its resolved color to the active animation. Events
/// that are neither a press nor a release are dropped.
pub fn dispatch(animator: &mut Animator, event: NoteEvent, color: [u8; 4])
    requires
        old(animator).wf(),
    ensures
        routed(old(animator).scene(), old(animator).leds(), event, color, final(animator).scene()),
        final(animator).animation == old(animator).animation,
        final(animator).config == old(animator).config,
        final(animator).animator.settings() == old(animator).animator.settings(),
        final(animator).wf(),
{
    match event.kind {
        MidiEventType::NoteOn => animator.note_on(event.led_index, color),
        MidiEventType::NoteOff => animator.note_off(event.led_index, color),
        MidiEventType::ControlChange => {},
    }
}

/// Advances the active animation by one frame and paints it.
pub fn render(animator: &mut Animator, frame: &mut Vec<[u8; 4]>)
    requires
        old(animator).wf(),
        paintable(old(animator).scene(), old(frame)@.len()),
    ensures
        final(animator).scene() == advanced(old(animator).scene(), old(animator).leds()),
        final(frame)@ == painted(final(animator).scene(), old(animator).leds(), old(frame)@),
        final(frame)@.len() == old(frame)@.len(),
        final(animator).animation == old(animator).animation,
        final(animator).config == old(animator).config,
        final(animator).animator.settings() == old(animator).animator.settings(),
        final(animator).wf(),
        paintable(final(animator).scene(), old(frame)@.len()),
{
    proof {
        if let Scene::Fades(fades) = animator.scene() {
            lemma_fading_keeps_fit(fades, animator.leds().fade as int, frame@.len());
        }
    }
    animator.update();
    animator.draw(frame);
}

/// Whether `polled` holds a press or a release.
pub open spec fn holds_note(polled: Polled) -> bool {
    polled matches Polled::Event(event) && event.kind != MidiEventType::ControlChange
}

/// Whether a tick can be made with what was polled. Where the producer is
/// gone nothing is asked. Otherwise a color can be looked up for a press or
/// release, what the animation holds lies on the frame, and so does a key
/// that is pressed now, where the animation lights the key itself.
pub open spec fn admits(
    scene: Scene,
    color_mode: ColorMode,
    polled: Polled,
    len: nat,
) -> bool {
    polled !is Disconnected ==> {
        &&& paintable(scene, len)
        &&& polled matches Polled::Event(event) ==> {
            &&& event.kind != MidiEventType::ControlChange ==> color_mode.has_color_at(
                event.led_index,
            )
            &&& event.kind == MidiEventType::NoteOn && (scene is Fades || scene is Default)
                ==> event.led_index < len
        }
    }
}

/// Whether `after` is what the animation holds when a tick that began with
/// `before` has taken `polled` from the queue: a press or release is handed
/// over with a color that the mode gives for its position, anything else
/// changes nothing, and then one frame passes.
pub open spec fn ticked(
    before: Scene,
    leds: LedsSettings,
    color_mode: ColorMode,
    polled: Polled,
    after: Scene,
) -> bool {
    match polled {
        Polled::Event(event) => if event.kind != MidiEventType::ControlChange {
            exists|color: [u8; 4], between: Scene|
                #![trigger routed(before, leds, event, color, between)]
                {
                    &&& color_mode.gives(event.led_index, color)
                    &&& routed(before, leds, event, color, between)
                    &&& after == advanced(between, leds)
                }
        } else {
            after == advanced(before, leds)
        },
        Polled::Empty => after == advanced(before, leds),
        Polled::Disconnected => after == before,
    }
}

/// Tells whether a tick can be made with what was polled.
pub fn can_animate(animator: &Animator, color_mode: &ColorMode, polled: Polled, len: usize) -> (ok:
    bool)
    ensures
        ok == admits(animator.scene(), *color_mode, polled, len as nat),
{
    if let Polled::Disconnected = polled {
        return true;
    }
    if !animator.fits(len) {
        return false;
    }
    match polled {
        Polled::Event(event) => {
            let lights_key = match &animator.animator {
                AnimatorEnum::Fades(_) => true,
                AnimatorEnum::Default(_) => true,
                _ => false,
            };
            match event.kind {
                MidiEventType::NoteOn => color_mode.can_color(event.led_index) && (!lights_key
                    || event.led_index < len),
                MidiEventType::NoteOff => color_mode.can_color(event.led_index),
                MidiEventType::ControlChange => true,
            }
        },
        _ => true,
    }
}

/// One tick of the renderer. A press or release that was polled is handed
/// to the active animation with the color that the mode gives for its
/// position now; then the animation is advanced by one frame and painted.
/// Where the producer is gone nothing is touched and the renderer is told to
/// stop.
pub fn animate_strip(
    animator: &mut Animator,
    frame: &mut Vec<[u8; 4]>,
    polled: Polled,
    color_mode: &ColorMode,
) -> (tick: Tick)
    requires
        polled !is Disconnected ==> old(animator).wf(),
        admits(old(animator).scene(), *color_mode, polled, old(frame)@.len()),
    ensures
        tick == if polled is Disconnected {
            Tick::Stopped
        } else {
            Tick::Rendered
        },
        ticked(
            old(animator).scene(),
            old(animator).leds(),
            *color_mode,
            polled,
            final(animator).scene(),
        ),
        final(frame)@ == if polled is Disconnected {
            old(frame)@
        } else {
            painted(final(animator).scene(), old(animator).leds(), old(frame)@)
        },
        final(frame)@.len() == old(frame)@.len(),
        polled is Disconnected ==> *final(animator) == *old(animator),
        polled !is Disconnected ==> final(animator).wf() && paintable(
            final(animator).scene(),
            old(frame)@.len(),
        ),
        final(animator).animation == old(animator).animation,
        final(animator).config == old(animator).config,
        final(animator).animator.settings() == old(animator).animator.settings(),
{
    match polled {
        Polled::Event(event) => {
            match event.kind {
                MidiEventType::ControlChange => {},
                _ => {
                    let color = color_mode.get_color(event.led_index);
                    dispatch(animator, event, color);
                    proof {
                        let before = old(animator).scene();
                        let between = animator.scene();
                        assert(routed(before, old(animator).leds(), event, color, between));
                        lemma_routing_keeps_fit(
                            before,
                            old(animator).leds(),
                            event,
                            color,
                            between,
                            frame@.len(),
                        );
                    }
                },
            }
        },
        Polled::Empty => {},
        Polled::Disconnected => {
            return Tick::Stopped;
        },
    }
    render(animator, frame);
    Tick::Rendered
}

/// An event leaves what the animation holds on the frame, where a key that
/// is pressed lies on it.
pub proof fn lemma_routing_keeps_fit(
    before: Scene,
    leds: LedsSettings,
    event: NoteEvent,
    color: [u8; 4],
    after: Scene,
    len: nat,
)
    requires
        paintable(before, len),
        routed(before, leds, event, color, after),
        event.kind == MidiEventType::NoteOn && (before is Fades || before is Default)
            ==> event.led_index < len,
    ensures
        paintable(after, len),
{
    match before {
        Scene::Fades(fades) => {
            if let Scene::Fades(now) = after {
                assert forall|i: int| 0 <= i < lit(now).len() implies (#[trigger] lit(
                    now,
                )[i]).position < len by {
                    if i < fades.len() {
                        assert(lit(fades)[i].position < len);
                    }
                }
            }
        },
        Scene::Default(keys) => {
            if let Scene::Default(now) = after {
                if event.kind == MidiEventType::NoteOff {
                    lemma_darkened_keeps_positions(keys, event.led_index, now);
                }
                assert forall|i: int| 0 <= i < now.len() implies (#[trigger] now[i]).position
                    < len by {
                    if i < keys.len() {
                        assert(keys[i].position < len);
                    }
                }
            }
        },
        _ => {},
    }
}

} // verus!
