//! Colors for the LEDs: a rainbow along the strip, random colors, or one
//! fixed color written as a hex literal.
//!
//! A pixel is four bytes, of which the fourth is not used and stays zero. A
//! color literal is written red first and handed to the strip blue first;
//! the colors of the rainbow and the random colors are handed on byte for
//! byte.

use cichlid::prelude::RainbowFillSingleCycle;
use cichlid::ColorRGB;
use rand::Rng;
use vstd::prelude::*;
use vstd::string::*;
use crate::text::same_text;

verus! {

/// Hue at which the rainbow starts at the first LED.
pub const RAINBOW_START_HUE: u8 = 0;

/// The value of a hex digit, in either case.
pub open spec fn hex_digit_value(c: char) -> Option<int> {
    if '0' <= c <= '9' {
        Some(c as int - '0' as int)
    } else if 'a' <= c <= 'f' {
        Some(c as int - 'a' as int + 10)
    } else if 'A' <= c <= 'F' {
        Some(c as int - 'A' as int + 10)
    } else {
        None
    }
}

/// Whether `text` starts with `#` and six hex digits.
pub open spec fn is_hex_color(text: Seq<char>) -> bool {
    &&& text.len() >= 7
    &&& text[0] == '#'
    &&& forall|i: int| 1 <= i < 7 ==> hex_digit_value(#[trigger] text[i]) is Some
}

/// The byte that the two hex digits at `at` and `at + 1` of `text` spell.
pub open spec fn hex_byte(text: Seq<char>, at: int) -> u8 {
    (16 * hex_digit_value(text[at]).unwrap() + hex_digit_value(text[at + 1]).unwrap()) as u8
}

/// Red, green and blue of the color literal `text`; black where `text` is no
/// color literal. What follows the six digits is not read.
pub open spec fn hex_rgb(text: Seq<char>) -> [u8; 3] {
    if is_hex_color(text) {
        [hex_byte(text, 1), hex_byte(text, 3), hex_byte(text, 5)]
    } else {
        [0u8, 0u8, 0u8]
    }
}

/// Reads one hex digit.
fn hex_digit(c: char) -> (value: Option<u8>)
    ensures
        value is Some <==> hex_digit_value(c) is Some,
        value matches Some(v) ==> v == hex_digit_value(c).unwrap() && v < 16,
{
    if '0' <= c && c <= '9' {
        Some((c as u32 - '0' as u32) as u8)
    } else if 'a' <= c && c <= 'f' {
        Some((c as u32 - 'a' as u32 + 10) as u8)
    } else if 'A' <= c && c <= 'F' {
        Some((c as u32 - 'A' as u32 + 10) as u8)
    } else {
        None
    }
}

/// Parses a color literal of the form `#RRGGBB` into red, green and blue.
///
/// A text that is no such literal gives black.
pub fn hex_to_rgb(hex: &String) -> (rgb: [u8; 3])
    ensures
        rgb == hex_rgb(hex@),
{
    let text = hex.as_str();
    if text.unicode_len() < 7 || text.get_char(0) != '#' {
        return [0, 0, 0];
    }
    let mut digits: [u8; 7] = [0, 0, 0, 0, 0, 0, 0];
    let mut i: usize = 1;
    while i < 7
        invariant
            1 <= i <= 7,
            text@ == hex@,
            text@.len() >= 7,
            text@[0] == '#',
            forall|k: int|
                1 <= k < i ==> hex_digit_value(#[trigger] text@[k]) == Some(digits[k] as int),
            forall|k: int| 1 <= k < i ==> digits[k] < 16,
        decreases 7 - i,
    {
        match hex_digit(text.get_char(i)) {
            Some(value) => {
                digits[i] = value;
            },
            None => {
                assert(hex_digit_value(text@[i as int]) is None);
                return [0, 0, 0];
            },
        }
        i += 1;
    }
    [16 * digits[1] + digits[2], 16 * digits[3] + digits[4], 16 * digits[5] + digits[6]]
}

/// A pixel with the given first three bytes and an unused fourth byte.
pub open spec fn pixel_of(first: u8, second: u8, third: u8) -> [u8; 4] {
    [first, second, third, 0u8]
}

/// The pixel that shows the color literal `text`: blue, green, red, zero.
pub open spec fn solid_pixel(text: Seq<char>) -> [u8; 4] {
    let rgb = hex_rgb(text);
    pixel_of(rgb[2], rgb[1], rgb[0])
}

/// The colors of one full turn of the color wheel spread over `num_leds`
/// LEDs, starting at `start_hue`: what `rainbow_fill_single_cycle` of
/// `cichlid` leaves in a buffer of that length.
pub uninterp spec fn rainbow_cycle(num_leds: usize, start_hue: u8) -> Seq<[u8; 3]>;

/// The pixel at `position` of a rainbow held in `colors`.
pub open spec fn rainbow_pixel(colors: Seq<[u8; 3]>, position: int) -> [u8; 4] {
    pixel_of(colors[position][0], colors[position][1], colors[position][2])
}

/// Whether a rainbow can be spread over `num_leds` LEDs: their number is not
/// zero when it is cut to 32 bits, and three bytes for each fit a buffer.
pub open spec fn rainbow_fits(num_leds: usize) -> bool {
    (num_leds as int) % 0x1_0000_0000 != 0 && 3 * num_leds <= isize::MAX
}

/// Fills a buffer of `num_leds` colors with
/// `cichlid::prelude::RainbowFillSingleCycle::rainbow_fill_single_cycle` and
/// hands out the red, green and blue of each.
///
/// Trusted: the buffer keeps its length, and its contents depend on the
/// length and the start hue alone. The call divides by the length cut to a
/// `u32`, so a length that is zero there is left out, and so is one for
/// which no buffer can be made.
#[verifier::external_body]
fn rainbow_strip(num_leds: usize, start_hue: u8) -> (colors: Vec<[u8; 3]>)
    requires
        rainbow_fits(num_leds),
    ensures
        colors@ == rainbow_cycle(num_leds, start_hue),
        colors@.len() == num_leds,
{
    let mut colors = vec![ColorRGB::Black; num_leds];
    colors.rainbow_fill_single_cycle(start_hue);
    colors.iter().map(|c| [c.r, c.g, c.b]).collect()
}

/// Draws one number from `low` to `high`, both included, with
/// `rand::Rng::gen_range` on `rand::thread_rng()`.
///
/// Trusted: the number lies in that range. Nothing else is known of it, and
/// two draws may differ.
#[verifier::external_body]
fn random_between(low: u8, high: u8) -> (value: u8)
    requires
        low <= high,
    ensures
        low <= value <= high,
{
    rand::thread_rng().gen_range(low..=high)
}

/// The pixel with the three drawn bytes as its channels.
pub fn random_pixel_of(first: u8, second: u8, third: u8) -> (pixel: [u8; 4])
    ensures
        pixel == pixel_of(first, second, third),
{
    [first, second, third, 0]
}

/// Picks the pixel at `position` out of a rainbow.
pub fn pick_rainbow_pixel(colors: &Vec<[u8; 3]>, position: usize) -> (pixel: [u8; 4])
    requires
        position < colors@.len(),
    ensures
        pixel == rainbow_pixel(colors@, position as int),
{
    let color = colors[position];
    [color[0], color[1], color[2], 0]
}

/// How LEDs get their color: `"rainbow"`, `"random"`, or a color literal
/// that every LED shows.
#[derive(Debug)]
pub struct ColorMode {
    pub mode: String,
    pub num_leds: usize,
}

impl Clone for ColorMode {
    fn clone(&self) -> (copy: Self)
        ensures
            copy.mode@ == self.mode@,
            copy.num_leds == self.num_leds,
    {
        ColorMode { mode: self.mode.clone(), num_leds: self.num_leds }
    }
}

impl ColorMode {
    /// Whether the colors follow the rainbow along the strip.
    pub open spec fn is_rainbow(&self) -> bool {
        self.mode@ == "rainbow"@
    }

    /// Whether every color is drawn at random.
    pub open spec fn is_random(&self) -> bool {
        !self.is_rainbow() && self.mode@ == "random"@
    }

    /// Whether a color can be looked up at `position`: the rainbow has a
    /// color only for the LEDs of a strip over which it can be spread.
    pub open spec fn has_color_at(&self, position: usize) -> bool {
        self.is_rainbow() ==> position < self.num_leds && rainbow_fits(self.num_leds)
    }

    /// The color at `position` in a mode whose colors are fixed by the mode
    /// and the position.
    pub open spec fn fixed_color(&self, position: usize) -> [u8; 4] {
        if self.is_rainbow() {
            rainbow_pixel(rainbow_cycle(self.num_leds, RAINBOW_START_HUE), position as int)
        } else {
            solid_pixel(self.mode@)
        }
    }

    /// Whether `pixel` may come out of the random mode: each of its three
    /// channels may hold any byte, and the fourth byte is zero.
    pub open spec fn random_pixel(pixel: [u8; 4]) -> bool {
        pixel[3] == 0
    }

    /// Whether `pixel` is a color that this mode may give at `position`.
    pub open spec fn gives(&self, position: usize, pixel: [u8; 4]) -> bool {
        if self.is_random() {
            Self::random_pixel(pixel)
        } else {
            pixel == self.fixed_color(position)
        }
    }

    /// A mode for a strip of `num_leds` LEDs.
    pub fn new(mode: &String, num_leds: &usize) -> (created: ColorMode)
        ensures
            created.mode@ == mode@,
            created.num_leds == *num_leds,
    {
        ColorMode { mode: mode.clone(), num_leds: *num_leds }
    }

    /// Replaces the mode and keeps the strip's length.
    pub fn set_color_mode(&mut self, mode: String)
        ensures
            final(self).mode == mode,
            final(self).num_leds == old(self).num_leds,
    {
        self.mode = mode;
    }

    /// Tells whether a color can be looked up at `position`.
    pub fn can_color(&self, position: usize) -> (ok: bool)
        ensures
            ok == self.has_color_at(position),
    {
        if same_text(self.mode.as_str(), "rainbow") {
            position < self.num_leds && (self.num_leds as u64) % 0x1_0000_0000 != 0
                && self.num_leds <= isize::MAX as usize / 3
        } else {
            true
        }
    }

    /// The color for the LED at `position` under the current mode.
    pub fn get_color(&self, position: usize) -> (pixel: [u8; 4])
        requires
            self.has_color_at(position),
        ensures
            self.gives(position, pixel),
    {
        if same_text(self.mode.as_str(), "rainbow") {
            self.get_rainbow_color(position)
        } else if same_text(self.mode.as_str(), "random") {
            self.get_random_color()
        } else {
            self.get_solid_color(&self.mode)
        }
    }

    /// The color at `position` of a rainbow that spans the strip once.
    pub fn get_rainbow_color(&self, position: usize) -> (pixel: [u8; 4])
        requires
            position < self.num_leds,
            rainbow_fits(self.num_leds),
        ensures
            pixel == rainbow_pixel(
                rainbow_cycle(self.num_leds, RAINBOW_START_HUE),
                position as int,
            ),
    {
        let colors = rainbow_strip(self.num_leds, RAINBOW_START_HUE);
        pick_rainbow_pixel(&colors, position)
    }

    /// A color whose three channels are drawn one by one, each over the
    /// whole byte.
    pub fn get_random_color(&self) -> (pixel: [u8; 4])
        ensures
            Self::random_pixel(pixel),
    {
        let first = random_between(u8::MIN, u8::MAX);
        let second = random_between(u8::MIN, u8::MAX);
        let third = random_between(u8::MIN, u8::MAX);
        random_pixel_of(first, second, third)
    }

    /// The pixel that shows the color literal `color`.
    pub fn get_solid_color(&self, color: &String) -> (pixel: [u8; 4])
        ensures
            pixel == solid_pixel(color@),
    {
        let rgb = hex_to_rgb(color);
        [rgb[2], rgb[1], rgb[0], 0]
    }
}

/// In rainbow mode a color is fixed by the strip's length and the
/// position: whatever two lookups with the same length and position give is
/// the same color.
pub proof fn lemma_rainbow_is_deterministic(
    first: ColorMode,
    second: ColorMode,
    position: usize,
    one: [u8; 4],
    other: [u8; 4],
)
    requires
        first.is_rainbow(),
        second.is_rainbow(),
        first.num_leds == second.num_leds,
        first.gives(position, one),
        second.gives(position, other),
    ensures
        one == other,
{
}

/// In a mode that names a color every LED shows that color, whatever its
/// position.
pub proof fn lemma_solid_color_everywhere(mode: ColorMode, here: usize, there: usize)
    requires
        !mode.is_rainbow(),
        !mode.is_random(),
    ensures
        mode.fixed_color(here) == mode.fixed_color(there),
        mode.fixed_color(here) == solid_pixel(mode.mode@),
{
}

} // verus!
