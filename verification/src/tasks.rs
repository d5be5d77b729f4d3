use vstd::prelude::*;
use vstd::utf8::{decode_utf8, encode_utf8, valid_utf8};
use vstd::string::StringExecFns;
use crate::animations::AnimationSet;
use crate::color::Color;
use crate::hex::{byte_text, hex_to_rgbw, lemma_read_written_color, parse_rgbw, rgbw_text, HexError};

verus! {

/// The number of LEDs on the strip; every frame lights all of them alike.
pub const NUM_LEDS: usize = 64;

/// What became of one message received over the network.
#[derive(Debug, Clone, Copy, PartialEq, Eq)]
pub enum MessageOutcome {
    /// The message held a colour, which now plays.
    ColorChanged(Color),
    /// The message is text but holds no colour.
    InvalidHex(HexError),
    /// The message is not UTF-8.
    InvalidUtf8,
}

/// The text that a message of `bytes` holds, if it is UTF-8.
pub open spec fn message_text(bytes: Seq<u8>) -> Option<Seq<char>> {
    if valid_utf8(bytes) {
        Some(decode_utf8(bytes))
    } else {
        None
    }
}

/// What a message with text `text` does.
pub open spec fn outcome_of(text: Option<Seq<char>>) -> MessageOutcome {
    match text {
        None => MessageOutcome::InvalidUtf8,
        Some(t) => match parse_rgbw(t) {
            Ok((_, color)) => MessageOutcome::ColorChanged(color),
            Err(e) => MessageOutcome::InvalidHex(e),
        },
    }
}

/// The animations after a message with outcome `outcome`.
pub open spec fn after_message(set: AnimationSet, outcome: MessageOutcome) -> AnimationSet {
    match outcome {
        MessageOutcome::ColorChanged(color) => set.colored(color),
        _ => set,
    }
}

/// Calls `std::str::from_utf8`. Its documentation states that it succeeds exactly
/// when the bytes are UTF-8 and then gives the text that they encode; the contract
/// says that over vstd's `valid_utf8` and `decode_utf8`.
#[verifier::external_body]
fn utf8_text(bytes: &[u8]) -> (res: Option<&str>)
    ensures
        res is Some <==> valid_utf8(bytes@),
        res matches Some(text) ==> text@ == decode_utf8(bytes@),
{
    std::str::from_utf8(bytes).ok()
}

/// Acts on the text of a received message: a message that starts with a colour
/// `#RRGGBBWW` makes that colour play; any other leaves the animations as they are.
pub fn apply_text(set: &mut AnimationSet, text: Option<&str>) -> (res: MessageOutcome)
    ensures
        res == outcome_of(
            match text {
                Some(t) => Some(t@),
                None => None,
            },
        ),
        *final(set) == after_message(*old(set), res),
        !(res is ColorChanged) ==> *final(set) == *old(set),
        res matches MessageOutcome::ColorChanged(c) ==> *final(set) == old(set).colored(c),
{
    match text {
        None => MessageOutcome::InvalidUtf8,
        Some(hex) => match hex_to_rgbw(hex) {
            Err(e) => MessageOutcome::InvalidHex(e),
            Ok((_, color)) => {
                set.set_color(color);
                MessageOutcome::ColorChanged(color)
            },
        },
    }
}

/// Acts on one message received over the network.
pub fn handle_message(set: &mut AnimationSet, message: &[u8]) -> (res: MessageOutcome)
    ensures
        res == outcome_of(message_text(message@)),
        *final(set) == after_message(*old(set), res),
        !(res is ColorChanged) ==> *final(set) == *old(set),
        res matches MessageOutcome::ColorChanged(c) ==> *final(set) == old(set).colored(c),
{
    let text = utf8_text(message);
    apply_text(set, text)
}

/// The message that asks the lamp to show `color`, a colour written `#RRGGBB`:
/// the text followed by `00`, a dark white channel.
pub fn color_command(color: &str) -> (res: String)
    ensures
        res@ == color@ + seq!['0', '0'],
{
    let mut message = String::from_str(color);
    message.append("00");
    proof {
        reveal_strlit("00");
    }
    message
}

/// A colour written `#rrggbb`, as the lamp's remote sends it.
pub open spec fn rgb_text(r: u8, g: u8, b: u8) -> Seq<char> {
    seq!['#'] + byte_text(r) + byte_text(g) + byte_text(b)
}

/// The message that the remote sends for a colour `#rrggbb` makes the lamp show
/// that colour with a dark white channel, from whatever animation it played.
pub proof fn lemma_command_sets_color(set: AnimationSet, r: u8, g: u8, b: u8)
    ensures
        ({
            let message = encode_utf8(rgb_text(r, g, b) + seq!['0', '0']);
            let color = Color { r, g, b, w: 0 };
            &&& outcome_of(message_text(message)) == MessageOutcome::ColorChanged(color)
            &&& after_message(set, outcome_of(message_text(message))) == set.colored(color)
            &&& set.colored(color).shown() == color
        }),
{
    broadcast use vstd::utf8::encode_utf8_valid_utf8, vstd::utf8::encode_utf8_decode_utf8;

    let color = Color { r, g, b, w: 0 };
    let text = rgb_text(r, g, b) + seq!['0', '0'];
    assert((0 + '0' as int) as char == '0');
    assert(byte_text(0) =~= seq!['0', '0']);
    assert(text =~= rgbw_text(color) + Seq::<char>::empty());
    lemma_read_written_color(color, Seq::<char>::empty());
    assert(message_text(encode_utf8(text)) == Some(text));
}

/// A message that does not hold a colour leaves the animations as they are; one
/// that holds a colour plays that colour as the following static colour.
pub proof fn lemma_only_colours_act(set: AnimationSet, outcome: MessageOutcome)
    ensures
        !(outcome is ColorChanged) ==> after_message(set, outcome) == set,
        outcome matches MessageOutcome::ColorChanged(c) ==> {
            &&& after_message(set, outcome).current_index == 1
            &&& after_message(set, outcome).folowing_static_color.current_color == c
            &&& after_message(set, outcome).rainbow == set.rainbow
            &&& after_message(set, outcome).white_color == set.white_color
        },
{
}

/// A message is acted on exactly when its text starts with a colour: UTF-8 text
/// starting with `#` and four pairs of hexadecimal digits.
pub proof fn lemma_which_messages_act(bytes: Seq<u8>)
    ensures
        (outcome_of(message_text(bytes)) is ColorChanged) <==> (valid_utf8(bytes) && parse_rgbw(
            decode_utf8(bytes),
        ) is Ok),
        !valid_utf8(bytes) ==> outcome_of(message_text(bytes)) == MessageOutcome::InvalidUtf8,
{
}

} // verus!
