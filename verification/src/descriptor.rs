//! What is known of one connected display.

use vstd::prelude::*;

verus! {

/// How many parts of a scale make one: a scale is held in hundredths, the
/// resolution at which the compositor reports it.
pub const SCALE_UNIT: u32 = 100;

/// How many parts of a refresh rate make one hertz.
pub const REFRESH_UNIT: u32 = 1000;

/// The identity and geometry of one display, as the compositor reported
/// them. A value does not change once it is made.
///
/// The two fractional quantities are held as whole numbers of a fixed unit:
/// the refresh rate in millihertz and the scale in hundredths. The scale is
/// never zero.
#[derive(Debug, PartialEq, Eq)]
pub struct Descriptor {
    description: String,
    name: String,
    x: i32,
    y: i32,
    width: u16,
    height: u16,
    refresh_millihertz: u32,
    scale_hundredths: u32,
}

/// A descriptor as a mathematical value.
pub struct DescriptorView {
    /// The description that identifies the display from one session to the next.
    pub description: Seq<char>,
    /// The connector name, which may differ from session to session.
    pub name: Seq<char>,
    pub x: int,
    pub y: int,
    /// Width in physical pixels.
    pub width: nat,
    /// Height in physical pixels.
    pub height: nat,
    pub refresh_millihertz: nat,
    pub scale_hundredths: nat,
}

impl DescriptorView {
    /// What holds of the view of every descriptor: the scale is not zero.
    pub open spec fn valid(self) -> bool {
        self.scale_hundredths > 0
    }

    /// The width in logical units: physical pixels divided by the scale,
    /// rounded down to a whole unit.
    pub open spec fn logical_width(self) -> int {
        (self.width * SCALE_UNIT) / (self.scale_hundredths as int)
    }
}

impl View for Descriptor {
    type V = DescriptorView;

    closed spec fn view(&self) -> DescriptorView {
        DescriptorView {
            description: self.description@,
            name: self.name@,
            x: self.x as int,
            y: self.y as int,
            width: self.width as nat,
            height: self.height as nat,
            refresh_millihertz: self.refresh_millihertz as nat,
            scale_hundredths: self.scale_hundredths as nat,
        }
    }
}

impl Clone for Descriptor {
    fn clone(&self) -> (copy: Self)
        ensures
            copy@ == self@,
    {
        proof {
            use_type_invariant(self);
        }
        Descriptor {
            description: self.description.clone(),
            name: self.name.clone(),
            x: self.x,
            y: self.y,
            width: self.width,
            height: self.height,
            refresh_millihertz: self.refresh_millihertz,
            scale_hundredths: self.scale_hundredths,
        }
    }
}

impl Descriptor {
    #[verifier::type_invariant]
    spec fn nonzero_scale(self) -> bool {
        self.scale_hundredths > 0
    }

    /// Makes a descriptor from what the compositor reported. A scale of zero
    /// is no scale: it is the one input that is refused.
    pub fn new(
        description: String,
        name: String,
        x: i32,
        y: i32,
        width: u16,
        height: u16,
        refresh_millihertz: u32,
        scale_hundredths: u32,
    ) -> (made: Option<Descriptor>)
        ensures
            made is Some <==> scale_hundredths > 0,
            made matches Some(d) ==> d@ == (DescriptorView {
                description: description@,
                name: name@,
                x: x as int,
                y: y as int,
                width: width as nat,
                height: height as nat,
                refresh_millihertz: refresh_millihertz as nat,
                scale_hundredths: scale_hundredths as nat,
            }),
    {
        if scale_hundredths == 0 {
            None
        } else {
            Some(
                Descriptor {
                    description,
                    name,
                    x,
                    y,
                    width,
                    height,
                    refresh_millihertz,
                    scale_hundredths,
                },
            )
        }
    }

    pub fn description(&self) -> (text: &String)
        ensures
            text@ == self@.description,
    {
        &self.description
    }

    pub fn name(&self) -> (text: &String)
        ensures
            text@ == self@.name,
    {
        &self.name
    }

    pub fn x(&self) -> (x: i32)
        ensures
            x == self@.x,
    {
        self.x
    }

    pub fn y(&self) -> (y: i32)
        ensures
            y == self@.y,
    {
        self.y
    }

    pub fn width(&self) -> (width: u16)
        ensures
            width == self@.width,
    {
        self.width
    }

    pub fn height(&self) -> (height: u16)
        ensures
            height == self@.height,
    {
        self.height
    }

    pub fn refresh_millihertz(&self) -> (rate: u32)
        ensures
            rate == self@.refresh_millihertz,
    {
        self.refresh_millihertz
    }

    pub fn scale_hundredths(&self) -> (scale: u32)
        ensures
            scale == self@.scale_hundredths,
            self@.valid(),
    {
        proof {
            use_type_invariant(self);
        }
        self.scale_hundredths
    }

    /// The width in logical units, which is where a display placed to the
    /// right of this one begins.
    pub fn logical_width(&self) -> (units: i32)
        ensures
            units == self@.logical_width(),
            self@.valid(),
    {
        proof {
            use_type_invariant(self);
        }
        let scaled: u32 = (self.width as u32) * SCALE_UNIT;
        let units: u32 = scaled / self.scale_hundredths;
        units as i32
    }
}

} // verus!
