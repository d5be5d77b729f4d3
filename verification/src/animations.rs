use vstd::prelude::*;
use crate::color::Color;

verus! {

/// A source of frames for the LED strip.
///
/// `frame` is the colour the animation shows now, `advanced` is the animation one
/// step later, and `holds_still` tells whether the driver may keep showing the
/// current frame instead of stepping.
pub trait Animation: Sized {
    spec fn frame(&self) -> Color;

    spec fn holds_still(&self) -> bool;

    spec fn advanced(&self) -> Self;

    fn is_static(&self) -> (res: bool)
        ensures
            res == self.holds_still(),
    ;

    fn current_frame(&self) -> (res: &Color)
        ensures
            *res == self.frame(),
    ;

    fn next_frame(&mut self) -> (res: &Color)
        ensures
            *final(self) == old(self).advanced(),
            *res == final(self).frame(),
    ;
}

/// The colour at position `pos` of a 256-step colour wheel: red fades to blue,
/// blue to green and green back to red; the white channel stays dark.
pub open spec fn wheel_color(pos: u8) -> Color {
    let p: int = 255 - pos;
    if p < 85 {
        Color { r: (255 - 3 * p) as u8, g: 0, b: (3 * p) as u8, w: 0 }
    } else if p < 170 {
        let q: int = p - 85;
        Color { r: 0, g: (3 * q) as u8, b: (255 - 3 * q) as u8, w: 0 }
    } else {
        let q: int = p - 170;
        Color { r: (3 * q) as u8, g: (255 - 3 * q) as u8, b: 0, w: 0 }
    }
}

/// Maps a position on the colour wheel to its colour.
pub fn wheel(wheel_pos: u8) -> (res: Color)
    ensures
        res == wheel_color(wheel_pos),
{
    let mut wheel_pos = wheel_pos;
    wheel_pos = 255 - wheel_pos;
    if wheel_pos < 85 {
        return (255 - wheel_pos * 3, 0, wheel_pos * 3, 0).into();
    }
    if wheel_pos < 170 {
        wheel_pos -= 85;
        return (0, wheel_pos * 3, 255 - wheel_pos * 3, 0).into();
    }
    wheel_pos -= 170;
    (wheel_pos * 3, 255 - wheel_pos * 3, 0, 0).into()
}

/// An animation that walks around the colour wheel, one position per frame.
pub struct Rainbow {
    current_color: Color,
    rotation: u8,
    pub is_static: bool,
}

impl Rainbow {
    /// The colour that the rainbow shows now.
    pub closed spec fn color(&self) -> Color {
        self.current_color
    }

    /// Whether the rainbow is marked as holding still.
    pub closed spec fn still(&self) -> bool {
        self.is_static
    }

    /// The rainbow one step further round the colour wheel.
    pub closed spec fn stepped(&self) -> Rainbow {
        let rotation = ((self.rotation + 1) % 256) as u8;
        Rainbow { current_color: wheel_color(rotation), rotation, is_static: self.is_static }
    }

    /// The rainbow after `n` frames.
    pub open spec fn steps(&self, n: nat) -> Rainbow
        decreases n,
    {
        if n == 0 {
            *self
        } else {
            self.steps((n - 1) as nat).stepped()
        }
    }

    /// The position on the colour wheel that was shown last.
    pub closed spec fn rotation(&self) -> u8 {
        self.rotation
    }

    pub fn new() -> (res: Self)
        ensures
            res.rotation() == 0,
            res.frame() == (Color { r: 0, g: 0, b: 0, w: 0 }),
            !res.holds_still(),
    {
        Self { current_color: Color::default(), is_static: false, rotation: 0 }
    }
}

impl Animation for Rainbow {
    open spec fn frame(&self) -> Color {
        self.color()
    }

    open spec fn holds_still(&self) -> bool {
        self.still()
    }

    open spec fn advanced(&self) -> Self {
        self.stepped()
    }

    fn next_frame(&mut self) -> (res: &Color) {
        self.rotation = self.rotation.wrapping_add(1);
        self.current_color = wheel(self.rotation);
        &self.current_color
    }

    fn current_frame(&self) -> (res: &Color) {
        &self.current_color
    }

    fn is_static(&self) -> (res: bool) {
        self.is_static
    }
}

/// An animation that keeps showing one colour.
pub struct StaticColor {
    pub current_color: Color,
    pub is_static: bool,
}

impl StaticColor {
    pub fn new(color: Color) -> (res: Self)
        ensures
            res.current_color == color,
            res.is_static,
    {
        Self { current_color: color, is_static: true }
    }

    pub fn default() -> (res: Self)
        ensures
            res.current_color == (Color { r: 0, g: 0, b: 0, w: 0 }),
            res.is_static,
    {
        StaticColor::new(Color::default())
    }

    pub fn set_color(&mut self, color: Color)
        ensures
            final(self).current_color == color,
            final(self).is_static == old(self).is_static,
    {
        self.current_color = color;
    }
}

impl Animation for StaticColor {
    open spec fn frame(&self) -> Color {
        self.current_color
    }

    open spec fn holds_still(&self) -> bool {
        self.is_static
    }

    open spec fn advanced(&self) -> Self {
        *self
    }

    fn next_frame(&mut self) -> (res: &Color) {
        return self.current_frame();
    }

    fn current_frame(&self) -> (res: &Color) {
        &self.current_color
    }

    fn is_static(&self) -> (res: bool) {
        self.is_static
    }
}

/// A mutable handle on the animation that an `AnimationSet` currently plays.
pub enum CurrentAnimation<'a> {
    Rainbow(&'a mut Rainbow),
    Static(&'a mut StaticColor),
}

/// The three animations of the lamp and which of them plays: `0` the rainbow,
/// `1` a static colour that follows the rainbow (or the last colour that was set),
/// `2` white.
pub struct AnimationSet {
    pub rainbow: Rainbow,
    pub folowing_static_color: StaticColor,
    pub white_color: StaticColor,
    pub current_index: usize,
}

impl AnimationSet {
    /// The index names one of the three animations.
    pub open spec fn wf(&self) -> bool {
        self.current_index < 3
    }

    /// The frame that the current animation shows now.
    pub open spec fn shown(&self) -> Color {
        if self.current_index == 0 {
            self.rainbow.color()
        } else if self.current_index == 1 {
            self.folowing_static_color.frame()
        } else {
            self.white_color.frame()
        }
    }

    /// The set after the current animation has produced one frame for the strip:
    /// an animation that holds still is left as it is, another one steps.
    pub open spec fn rendered(&self) -> AnimationSet {
        if self.current_index == 0 {
            if self.rainbow.still() {
                *self
            } else {
                AnimationSet { rainbow: self.rainbow.stepped(), ..*self }
            }
        } else {
            *self
        }
    }

    /// The set with its rainbow replaced.
    pub open spec fn with_rainbow(&self, rainbow: Rainbow) -> AnimationSet {
        AnimationSet { rainbow, ..*self }
    }

    /// The set with its following static colour replaced.
    pub open spec fn with_following(&self, animation: StaticColor) -> AnimationSet {
        AnimationSet { folowing_static_color: animation, ..*self }
    }

    /// The set with its white animation replaced.
    pub open spec fn with_white(&self, animation: StaticColor) -> AnimationSet {
        AnimationSet { white_color: animation, ..*self }
    }

    /// The set after `color` was set: the following static colour shows it and plays.
    pub open spec fn colored(&self, color: Color) -> AnimationSet {
        AnimationSet {
            folowing_static_color: StaticColor {
                current_color: color,
                is_static: self.folowing_static_color.is_static,
            },
            current_index: 1,
            ..*self
        }
    }

    /// The set after a press of the button.
    pub open spec fn switched(&self) -> AnimationSet {
        let index: usize = if self.current_index + 1 >= 3 {
            0
        } else {
            (self.current_index + 1) as usize
        };
        if index == 1 {
            AnimationSet {
                folowing_static_color: StaticColor {
                    current_color: self.rainbow.color(),
                    ..self.folowing_static_color
                },
                current_index: index,
                ..*self
            }
        } else {
            AnimationSet { current_index: index, ..*self }
        }
    }

    pub fn new() -> (res: Self)
        ensures
            res.current_index == 0,
            res.rainbow.rotation() == 0,
            res.rainbow.color() == (Color { r: 0, g: 0, b: 0, w: 0 }),
            !res.rainbow.still(),
            res.folowing_static_color.current_color == (Color { r: 0, g: 0, b: 0, w: 0 }),
            res.folowing_static_color.is_static,
            res.white_color.current_color == (Color { r: 255, g: 255, b: 255, w: 255 }),
            res.white_color.is_static,
    {
        Self {
            rainbow: Rainbow::new(),
            folowing_static_color: StaticColor::default(),
            white_color: StaticColor::new(Color::white()),
            current_index: 0,
        }
    }

    /// Switches to the next animation; entering the static colour freezes the
    /// colour that the rainbow shows at that moment.
    pub fn next_animation(&mut self)
        requires
            old(self).current_index < usize::MAX,
        ensures
            *final(self) == old(self).switched(),
    {
        self.current_index += 1;
        if self.current_index >= 3 {
            self.current_index = 0;
        }
        if self.current_index == 1 {
            self.folowing_static_color.set_color(*self.rainbow.current_frame());
        }
    }

    /// A handle on the animation that plays now.
    pub fn current_animation(&mut self) -> (res: CurrentAnimation<'_>)
        requires
            old(self).wf(),
        ensures
            old(self).current_index == 0 ==> (res matches CurrentAnimation::Rainbow(a) && *a
                == old(self).rainbow && *final(self) == old(self).with_rainbow(*final(a))),
            old(self).current_index == 1 ==> (res matches CurrentAnimation::Static(a) && *a
                == old(self).folowing_static_color && *final(self) == old(self).with_following(
                *final(a),
            )),
            old(self).current_index == 2 ==> (res matches CurrentAnimation::Static(a) && *a
                == old(self).white_color && *final(self) == old(self).with_white(*final(a))),
    {
        match self.current_index {
            0 => CurrentAnimation::Rainbow(&mut self.rainbow),
            1 => CurrentAnimation::Static(&mut self.folowing_static_color),
            _ => CurrentAnimation::Static(&mut self.white_color),
        }
    }

    /// Shows `color` as a static colour.
    pub fn set_color(&mut self, color: Color)
        ensures
            *final(self) == old(self).colored(color),
            final(self).current_index == 1,
            final(self).folowing_static_color.current_color == color,
            final(self).folowing_static_color.is_static == old(self).folowing_static_color.is_static,
            final(self).rainbow == old(self).rainbow,
            final(self).white_color == old(self).white_color,
    {
        self.folowing_static_color.set_color(color);
        self.current_index = 1;
    }

    /// Produces the next frame for the strip: the current animation's frame if it
    /// holds still, else the frame after one step.
    pub fn render_frame(&mut self) -> (res: Color)
        requires
            old(self).wf(),
        ensures
            *final(self) == old(self).rendered(),
            res == final(self).shown(),
            final(self).current_index == old(self).current_index,
            final(self).folowing_static_color == old(self).folowing_static_color,
            final(self).white_color == old(self).white_color,
            old(self).current_index != 0 ==> *final(self) == *old(self),
    {
        match self.current_animation() {
            CurrentAnimation::Rainbow(animation) => {
                if animation.is_static() {
                    *animation.current_frame()
                } else {
                    *animation.next_frame()
                }
            },
            CurrentAnimation::Static(animation) => {
                if animation.is_static() {
                    *animation.current_frame()
                } else {
                    *animation.next_frame()
                }
            },
        }
    }
}

/// One step moves the rainbow to the next position of the wheel and shows that
/// position's colour; whether it holds still does not change.
pub broadcast proof fn lemma_rainbow_step(rainbow: Rainbow)
    ensures
        #![trigger rainbow.stepped()]
        rainbow.stepped().rotation() == (rainbow.rotation() + 1) % 256,
        rainbow.stepped().color() == wheel_color(rainbow.stepped().rotation()),
        rainbow.stepped().still() == rainbow.still(),
{
}

/// Two rainbows at the same position, showing the same colour and alike in
/// holding still, are the same.
pub proof fn lemma_rainbow_ext(a: Rainbow, b: Rainbow)
    requires
        a.rotation() == b.rotation(),
        a.color() == b.color(),
        a.still() == b.still(),
    ensures
        a == b,
{
}

/// The set after `n` frames were rendered.
pub open spec fn renders(set: AnimationSet, n: nat) -> AnimationSet
    decreases n,
{
    if n == 0 {
        set
    } else {
        renders(set, (n - 1) as nat).rendered()
    }
}

/// Every colour of the wheel has a dark white channel and red, green and blue
/// that add up to 255: the wheel changes hue, never brightness.
pub proof fn lemma_wheel_brightness(pos: u8)
    ensures
        wheel_color(pos).w == 0,
        wheel_color(pos).r + wheel_color(pos).g + wheel_color(pos).b == 255,
{
}

/// Neighbouring positions of the wheel, the last and the first included, differ
/// by at most 3 in every channel: the rainbow fades without jumps.
pub proof fn lemma_wheel_smooth(pos: u8)
    ensures
        ({
            let a = wheel_color(pos);
            let b = wheel_color(((pos + 1) % 256) as u8);
            &&& -3 <= a.r - b.r <= 3
            &&& -3 <= a.g - b.g <= 3
            &&& -3 <= a.b - b.b <= 3
            &&& a.w == b.w
        }),
{
}

/// The wheel starts at pure red and walks to green over positions 0 to 85, to
/// blue over 85 to 170 and back to red over 170 to 255, three steps of light per
/// position moving from one channel to the next.
pub proof fn lemma_wheel_walk(pos: u8)
    ensures
        wheel_color(0) == (Color { r: 255, g: 0, b: 0, w: 0 }),
        ({
            let a = wheel_color(pos);
            let b = wheel_color(((pos + 1) % 256) as u8);
            &&& pos < 85 ==> b.r == a.r - 3 && b.g == a.g + 3 && a.b == 0 && b.b == 0
            &&& 85 <= pos < 170 ==> b.g == a.g - 3 && b.b == a.b + 3 && a.r == 0 && b.r == 0
            &&& 170 <= pos < 255 ==> b.b == a.b - 3 && b.r == a.r + 3 && a.g == 0 && b.g == 0
        }),
{
}

/// After `n` frames, `n` at least one, the rainbow stands `n` positions further
/// round the wheel and shows the colour of that position.
pub proof fn lemma_rainbow_steps(rainbow: Rainbow, n: nat)
    requires
        n >= 1,
    ensures
        rainbow.steps(n).rotation() == (rainbow.rotation() + n) % 256,
        rainbow.steps(n).color() == wheel_color(rainbow.steps(n).rotation()),
        rainbow.steps(n).still() == rainbow.still(),
    decreases n,
{
    let prev = rainbow.steps((n - 1) as nat);
    assert(rainbow.steps(n) == prev.stepped());
    if n > 1 {
        lemma_rainbow_steps(rainbow, (n - 1) as nat);
        let k: int = rainbow.rotation() + n - 1;
        assert((k % 256 + 1) % 256 == (k + 1) % 256) by {
            vstd::arithmetic::div_mod::lemma_add_mod_noop(k, 1, 256);
        }
    }
}

/// A rainbow that has shown a frame comes back to the same state after 256 more.
pub proof fn lemma_rainbow_period(rainbow: Rainbow, n: nat)
    requires
        n >= 1,
    ensures
        rainbow.steps(n + 256) == rainbow.steps(n),
{
    lemma_rainbow_steps(rainbow, n);
    lemma_rainbow_steps(rainbow, n + 256);
}

/// Pressing the button from any index below the largest gives a valid index,
/// and so do rendering a frame and setting a colour.
pub proof fn lemma_index_stays_valid(set: AnimationSet, color: Color)
    ensures
        set.current_index < usize::MAX ==> set.switched().wf(),
        set.wf() ==> set.rendered().wf(),
        set.colored(color).wf(),
{
}

/// Three presses of the button bring back the animation that played before, with
/// the rainbow and the white light untouched.
pub proof fn lemma_three_presses(set: AnimationSet)
    requires
        set.wf(),
    ensures
        set.switched().switched().switched().current_index == set.current_index,
        set.switched().switched().switched().rainbow == set.rainbow,
        set.switched().switched().switched().white_color == set.white_color,
{
}

/// Leaving the rainbow with the button freezes the colour it showed: that colour
/// plays from then on, frame after frame.
pub proof fn lemma_press_freezes_rainbow(set: AnimationSet, n: nat)
    requires
        set.current_index == 0,
    ensures
        set.switched().shown() == set.rainbow.color(),
        renders(set.switched(), n) == set.switched(),
    decreases n,
{
    if n > 0 {
        lemma_press_freezes_rainbow(set, (n - 1) as nat);
    }
}

/// A colour that was set plays from then on, frame after frame, until the button
/// is pressed.
pub proof fn lemma_set_color_holds(set: AnimationSet, color: Color, n: nat)
    ensures
        renders(set.colored(color), n) == set.colored(color),
        renders(set.colored(color), n).shown() == color,
    decreases n,
{
    if n > 0 {
        lemma_set_color_holds(set, color, (n - 1) as nat);
    }
}

/// While the rainbow plays and does not hold still, each frame moves it one
/// position round the wheel.
pub proof fn lemma_rainbow_plays(set: AnimationSet, n: nat)
    requires
        set.current_index == 0,
        !set.rainbow.still(),
    ensures
        renders(set, n).current_index == 0,
        renders(set, n).rainbow == set.rainbow.steps(n),
        renders(set, n).folowing_static_color == set.folowing_static_color,
        renders(set, n).white_color == set.white_color,
    decreases n,
{
    if n > 0 {
        lemma_rainbow_plays(set, (n - 1) as nat);
        if n > 1 {
            lemma_rainbow_steps(set.rainbow, (n - 1) as nat);
        }
    }
}

/// Rendering a frame never changes which animation plays, nor the two static
/// colours; while a static colour plays, rendering leaves the whole set as it is.
pub proof fn lemma_render_keeps_animation(set: AnimationSet)
    ensures
        set.rendered().current_index == set.current_index,
        set.rendered().folowing_static_color == set.folowing_static_color,
        set.rendered().white_color == set.white_color,
        set.current_index != 0 ==> set.rendered() == set,
        set.current_index == 1 ==> set.shown() == set.folowing_static_color.current_color,
        set.current_index == 2 ==> set.shown() == set.white_color.current_color,
{
}

/// Setting a colour, whatever played before, plays it as the following static
/// colour (index 1) and touches neither the rainbow nor the white light.
pub proof fn lemma_set_color_plays_it(set: AnimationSet, color: Color)
    ensures
        set.colored(color).current_index == 1,
        set.colored(color).folowing_static_color.current_color == color,
        set.colored(color).folowing_static_color.is_static == set.folowing_static_color.is_static,
        set.colored(color).white_color == set.white_color,
        set.colored(color).rainbow == set.rainbow,
        set.colored(color).shown() == color,
{
}

/// The button walks rainbow, static colour, white and back to the rainbow; from
/// any larger index it goes to the rainbow. A press never touches the rainbow or
/// the white light, and changes the static colour only when it enters it.
pub proof fn lemma_press_order(set: AnimationSet)
    requires
        set.current_index < usize::MAX,
    ensures
        set.current_index == 0 ==> set.switched().current_index == 1,
        set.current_index == 1 ==> set.switched().current_index == 2,
        set.current_index >= 2 ==> set.switched().current_index == 0,
        set.switched().rainbow == set.rainbow,
        set.switched().white_color == set.white_color,
        set.switched().current_index == 1 ==> set.switched().folowing_static_color.current_color
            == set.rainbow.color(),
        set.switched().folowing_static_color.is_static == set.folowing_static_color.is_static,
        set.switched().current_index != 1 ==> set.switched().folowing_static_color
            == set.folowing_static_color,
{
}

} // verus!
