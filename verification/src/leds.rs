use vstd::prelude::*;

verus! {

/// An RGB color with 8 bits per channel.
#[derive(Debug, PartialEq, Eq, Structural, Clone, Copy)]
pub struct Rgb {
    pub r: u8,
    pub g: u8,
    pub b: u8,
}

/// Off.
pub open spec fn spec_black() -> Rgb {
    Rgb { r: 0, g: 0, b: 0 }
}

/// Full red.
pub open spec fn spec_red() -> Rgb {
    Rgb { r: 255, g: 0, b: 0 }
}

/// Off.
pub fn black() -> (c: Rgb)
    ensures
        c == spec_black(),
{
    Rgb { r: 0, g: 0, b: 0 }
}

/// Full red.
pub fn red() -> (c: Rgb)
    ensures
        c == spec_red(),
{
    Rgb { r: 255, g: 0, b: 0 }
}

/// The color that shows whether a button is held: red while one is, off
/// while none is.
pub fn indicator_color(pressed: Option<usize>) -> (c: Rgb)
    ensures
        c == (if pressed is Some { spec_red() } else { spec_black() }),
        pressed is Some ==> c == (Rgb { r: 255, g: 0, b: 0 }),
        pressed is None ==> c == (Rgb { r: 0, g: 0, b: 0 }),
{
    match pressed {
        Some(_) => red(),
        None => black(),
    }
}

/// The levels of the LED pins for the remembered colors: an LED is lit
/// unless its color is black.
pub open spec fn pin_levels(colors: Seq<Rgb>) -> Seq<bool> {
    colors.map_values(|c: Rgb| c != spec_black())
}

/// A row of plain LEDs that remembers the color last written to each and
/// lights every LED whose color is not black.
pub struct LedBank {
    colors: Vec<Rgb>,
}

impl LedBank {
    /// The remembered colors.
    pub closed spec fn colors(self) -> Seq<Rgb> {
        self.colors@
    }

    /// A bank of `count` LEDs, all black.
    pub fn new(count: usize) -> (bank: LedBank)
        ensures
            bank.colors() == Seq::new(count as nat, |i: int| spec_black()),
    {
        let mut colors: Vec<Rgb> = Vec::new();
        let mut i: usize = 0;
        while i < count
            invariant
                i <= count,
                colors@ == Seq::new(i as nat, |j: int| spec_black()),
            decreases count - i,
        {
            colors.push(black());
            i = i + 1;
            assert(colors@ =~= Seq::new(i as nat, |j: int| spec_black()));
        }
        LedBank { colors }
    }

    /// Number of LEDs.
    pub fn len(&self) -> (n: usize)
        ensures
            n == self.colors().len(),
    {
        self.colors.len()
    }

    /// Remembers `color` for LED `led` and returns the level of every pin,
    /// high for an LED that is lit.
    pub fn write(&mut self, color: Rgb, led: usize) -> (levels: Vec<bool>)
        requires
            led < old(self).colors().len(),
        ensures
            final(self).colors() == old(self).colors().update(led as int, color),
            levels@ == pin_levels(final(self).colors()),
            levels@.len() == old(self).colors().len(),
            levels@[led as int] == (color != (Rgb { r: 0, g: 0, b: 0 })),
            forall|i: int|
                0 <= i < levels@.len() && i != led ==> #[trigger] levels@[i] == (old(self).colors()[i] != (Rgb {
                    r: 0,
                    g: 0,
                    b: 0,
                })),
    {
        self.colors.set(led, color);
        let mut levels: Vec<bool> = Vec::new();
        let mut i: usize = 0;
        while i < self.colors.len()
            invariant
                i <= self.colors@.len(),
                levels@ == pin_levels(self.colors@).take(i as int),
            decreases self.colors@.len() - i,
        {
            let c = self.colors[i];
            let black = black();
            levels.push(c != black);
            assert(pin_levels(self.colors@).take(i + 1) =~= pin_levels(self.colors@).take(i as int).push(
                c != spec_black(),
            ));
            i = i + 1;
        }
        assert(pin_levels(self.colors@).take(i as int) =~= pin_levels(self.colors@));
        levels
    }
}

} // verus!
