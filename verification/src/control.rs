//! What the control interface answers: reading and setting the color mode
//! and the animation, and the brightness, which cannot be set yet.

use vstd::prelude::*;
use vstd::string::*;
use crate::animator::{kind_of, opening, Animator};
use crate::color::ColorMode;

verus! {

/// An answer to a request.
#[derive(Debug)]
pub struct Message {
    /// `"success"` or `"error"`.
    pub status: String,
    /// What the request was about.
    pub kind: String,
    pub data: String,
}

/// The value of a decimal digit.
pub open spec fn digit_value(c: char) -> Option<int> {
    if '0' <= c <= '9' {
        Some(c as int - '0' as int)
    } else {
        None
    }
}

/// Whether `text` holds decimal digits only.
pub open spec fn all_digits(text: Seq<char>) -> bool {
    forall|i: int| 0 <= i < text.len() ==> digit_value(#[trigger] text[i]) is Some
}

/// The number that the decimal digits of `text` spell.
pub open spec fn decimal(text: Seq<char>) -> int
    decreases text.len(),
{
    if text.len() == 0 {
        0
    } else {
        10 * decimal(text.drop_last()) + digit_value(text.last()).unwrap()
    }
}

/// `text` without a plus sign in front.
pub open spec fn unsigned_part(text: Seq<char>) -> Seq<char> {
    if text.len() > 0 && text[0] == '+' {
        text.skip(1)
    } else {
        text
    }
}

/// The brightness that `text` spells: a number from 0 to 255 written with
/// at least one decimal digit, with or without a plus sign in front.
pub open spec fn brightness_of(text: Seq<char>) -> Option<u8> {
    let digits = unsigned_part(text);
    if digits.len() > 0 && all_digits(digits) && decimal(digits) <= 255 {
        Some(decimal(digits) as u8)
    } else {
        None
    }
}

/// A number grows with every digit that is written behind it.
proof fn lemma_decimal_grows(text: Seq<char>, prefix: int)
    requires
        all_digits(text),
        0 <= prefix <= text.len(),
    ensures
        0 <= decimal(text.take(prefix)) <= decimal(text),
    decreases text.len() - prefix,
{
    if prefix == text.len() {
        assert(text.take(prefix) =~= text);
        lemma_decimal_grows_from_nothing(text);
    } else {
        lemma_decimal_grows(text, prefix + 1);
        let longer = text.take(prefix + 1);
        assert(longer.drop_last() =~= text.take(prefix));
        assert(longer.last() == text[prefix]);
        lemma_decimal_grows_from_nothing(text.take(prefix));
    }
}

proof fn lemma_decimal_grows_from_nothing(text: Seq<char>)
    requires
        all_digits(text),
    ensures
        0 <= decimal(text),
    decreases text.len(),
{
    if text.len() > 0 {
        assert(digit_value(text[text.len() - 1]) is Some);
        lemma_decimal_grows_from_nothing(text.drop_last());
    }
}

/// Reads a brightness.
pub fn parse_brightness(text: &str) -> (brightness: Option<u8>)
    ensures
        brightness == brightness_of(text@),
{
    if !text.is_ascii() {
        proof {
            let at = choose|i: int|
                0 <= i < text@.len() && !('\0' <= #[trigger] text@[i] <= '\u{7f}');
            let digits = unsigned_part(text@);
            if text@[0] == '+' {
                assert(digits[at - 1] == text@[at]);
            } else {
                assert(digits[at] == text@[at]);
            }
        }
        return None;
    }
    let len = text.unicode_len();
    let start: usize = if len > 0 && text.get_ascii(0) == 43 {
        1
    } else {
        0
    };
    if start == len {
        return None;
    }
    let ghost digits = unsigned_part(text@);
    assert(digits =~= text@.skip(start as int));
    let mut value: u32 = 0;
    let mut i: usize = start;
    while i < len
        invariant
            start <= i <= len,
            len == text@.len(),
            text.is_ascii(),
            digits == text@.skip(start as int),
            digits == unsigned_part(text@),
            all_digits(digits.take(i - start)),
            value == decimal(digits.take(i - start)),
            value <= 255,
        decreases len - i,
    {
        let byte = text.get_ascii(i);
        let ghost longer = digits.take(i + 1 - start);
        proof {
            assert(longer.drop_last() =~= digits.take(i - start));
            assert(longer.last() == text@[i as int]);
            assert(digits[i - start] == text@[i as int]);
        }
        if byte < 48 || byte > 57 {
            assert(digit_value(digits[i - start]) is None);
            return None;
        }
        assert forall|k: int| 0 <= k < longer.len() implies digit_value(#[trigger] longer[k])
            is Some by {
            if k < i - start {
                assert(digits.take(i - start)[k] == longer[k]);
            }
        }
        value = value * 10 + (byte - 48) as u32;
        if value > 255 {
            proof {
                if all_digits(digits) {
                    lemma_decimal_grows(digits, i + 1 - start);
                }
            }
            return None;
        }
        i += 1;
    }
    assert(digits.take(i - start) =~= digits);
    Some(value as u8)
}

/// Whether `message` has the given status and kind.
pub open spec fn labelled(message: Message, status: Seq<char>, kind: Seq<char>) -> bool {
    message.status@ == status && message.kind@ == kind
}

/// Puts an answer together.
fn message(status: &str, kind: &str, data: String) -> (made: Message)
    ensures
        labelled(made, status@, kind@),
        made.data == data,
{
    Message { status: String::from_str(status), kind: String::from_str(kind), data }
}

/// Answers with the color mode.
pub fn get_color_mode(color_mode: &ColorMode) -> (answer: Message)
    ensures
        labelled(answer, "success"@, "color_mode"@),
        answer.data@ == color_mode.mode@,
{
    message("success", "color_mode", color_mode.mode.clone())
}

/// Sets the color mode and answers with the mode that is set then.
pub fn set_color_mode(color_mode: &mut ColorMode, mode: String) -> (answer: Message)
    ensures
        final(color_mode).mode@ == mode@,
        final(color_mode).num_leds == old(color_mode).num_leds,
        labelled(answer, "success"@, "color_mode"@),
        answer.data@ == mode@,
{
    color_mode.set_color_mode(mode);
    message("success", "color_mode", color_mode.mode.clone())
}

/// Answers with the name of the active animation.
pub fn get_animation(animator: &Animator) -> (answer: Message)
    ensures
        labelled(answer, "success"@, "animation"@),
        answer.data@ == animator.animation@,
{
    message("success", "animation", animator.animation.clone())
}

/// Makes the animation that `animation` names the active one, with nothing
/// in it, and answers with its name.
pub fn set_animation(animator: &mut Animator, animation: String) -> (answer: Message)
    ensures
        final(animator).animation@ == animation@,
        final(animator).settings() == old(animator).settings(),
        final(animator).animator.settings() == old(animator).settings(),
        final(animator).scene() == opening(kind_of(animation@)),
        final(animator).wf(),
        labelled(answer, "success"@, "animation"@),
        answer.data@ == animation@,
{
    animator.set_animation(animation);
    message("success", "animation", animator.animation.clone())
}

/// Answers that the brightness cannot be read.
pub fn get_brightness() -> (answer: Message)
    ensures
        labelled(answer, "error"@, "brightness"@),
        answer.data@ == "NOT_IMPLEMENTED"@,
{
    message("error", "brightness", String::from_str("NOT_IMPLEMENTED"))
}

/// Answers a request to set the brightness: that the text is no brightness,
/// or that a brightness cannot be set. Nothing is changed either way.
pub fn set_brightness(brightness: &String) -> (answer: Message)
    ensures
        labelled(answer, "error"@, "brightness"@),
        answer.data@ == if brightness_of(brightness@) is Some {
            "NOT_IMPLEMENTED"@
        } else {
            "Could not parse brightness"@
        },
{
    match parse_brightness(brightness.as_str()) {
        Some(_) => message("error", "brightness", String::from_str("NOT_IMPLEMENTED")),
        None => message("error", "brightness", String::from_str("Could not parse brightness")),
    }
}

} // verus!
