use vstd::prelude::*;
use crate::hex::{hex_to_rgbw, parse_rgbw};

verus! {

/// An RGBW colour as sent to the LED strip: one byte per channel.
#[derive(Debug, Copy, PartialEq, Eq, Structural)]
pub struct Color {
    pub r: u8,
    pub g: u8,
    pub b: u8,
    pub w: u8,
}

impl Clone for Color {
    fn clone(&self) -> (res: Self)
        ensures
            res == *self,
    {
        Self { r: self.r, g: self.g, b: self.b, w: self.w }
    }

    fn clone_from(&mut self, source: &Self)
        ensures
            *final(self) == *source,
    {
        self.r = source.r;
        self.g = source.g;
        self.b = source.b;
        self.w = source.w;
    }
}

impl Default for Color {
    fn default() -> (res: Self)
        ensures
            res == (Color { r: 0, g: 0, b: 0, w: 0 }),
    {
        Self { r: 0, g: 0, b: 0, w: 0 }
    }
}

impl From<(u8, u8, u8, u8)> for Color {
    fn from(channels: (u8, u8, u8, u8)) -> (res: Color) {
        Color { r: channels.0, g: channels.1, b: channels.2, w: channels.3 }
    }
}

impl vstd::std_specs::convert::FromSpecImpl<(u8, u8, u8, u8)> for Color {
    open spec fn obeys_from_spec() -> bool {
        true
    }

    open spec fn from_spec(channels: (u8, u8, u8, u8)) -> Color {
        Color { r: channels.0, g: channels.1, b: channels.2, w: channels.3 }
    }
}

impl Color {
    pub fn new(r: u8, g: u8, b: u8, w: u8) -> (res: Self)
        ensures
            res == (Color { r, g, b, w }),
    {
        Self { r, g, b, w }
    }

    /// Reads a colour written `#RRGGBBWW` at the front of `hex`; what follows it is
    /// ignored.
    pub fn from_hex(hex: &str) -> (res: Result<Self, ()>)
        ensures
            res == (match parse_rgbw(hex@) {
                Ok((_, color)) => Ok::<Color, ()>(color),
                Err(_) => Err::<Color, ()>(()),
            }),
    {
        match hex_to_rgbw(hex) {
            Ok((_, color)) => Ok(color),
            Err(_) => Err(()),
        }
    }

    pub fn white() -> (res: Color)
        ensures
            res == (Color { r: 255, g: 255, b: 255, w: 255 }),
    {
        Color { r: 255, g: 255, b: 255, w: 255 }
    }
}

} // verus!
