//! The layout engine: from two displays and a mode to the directives that
//! put the displays where the mode wants them.

use crate::descriptor::{Descriptor, DescriptorView};
use crate::mode::Mode;
use crate::text::{
    append_decimal, append_fixed_point, append_signed_decimal, decimal, fixed_point,
    signed_decimal,
};
use vstd::prelude::*;
use vstd::string::StringExecFns;

verus! {

/// Places after the point in a scale held in hundredths.
pub const SCALE_PLACES: u32 = 2;

/// Places after the point in a refresh rate held in millihertz.
pub const REFRESH_PLACES: u32 = 3;

/// The geometry that one display is to take, and the display that it is to
/// duplicate, if any.
#[derive(Debug, PartialEq, Eq)]
pub struct Directive {
    /// The connector name of the display that the directive is for.
    pub name: String,
    pub x: i32,
    pub y: i32,
    pub width: u16,
    pub height: u16,
    pub refresh_millihertz: u32,
    pub scale_hundredths: u32,
    /// The connector name of the display to duplicate. The geometry is then
    /// carried along but the compositor shows the other display's image.
    pub mirror_of: Option<String>,
}

/// A directive as a mathematical value.
pub struct DirectiveView {
    pub name: Seq<char>,
    pub x: int,
    pub y: int,
    pub width: nat,
    pub height: nat,
    pub refresh_millihertz: nat,
    pub scale_hundredths: nat,
    pub mirror_of: Option<Seq<char>>,
}

impl View for Directive {
    type V = DirectiveView;

    open spec fn view(&self) -> DirectiveView {
        DirectiveView {
            name: self.name@,
            x: self.x as int,
            y: self.y as int,
            width: self.width as nat,
            height: self.height as nat,
            refresh_millihertz: self.refresh_millihertz as nat,
            scale_hundredths: self.scale_hundredths as nat,
            mirror_of: match self.mirror_of {
                Some(source) => Some(source@),
                None => None,
            },
        }
    }
}

impl Clone for Directive {
    fn clone(&self) -> (copy: Self)
        ensures
            copy@ == self@,
    {
        Directive {
            name: self.name.clone(),
            x: self.x,
            y: self.y,
            width: self.width,
            height: self.height,
            refresh_millihertz: self.refresh_millihertz,
            scale_hundredths: self.scale_hundredths,
            mirror_of: match &self.mirror_of {
                Some(source) => Some(source.clone()),
                None => None,
            },
        }
    }
}

/// The views of a row of directives, in order.
pub open spec fn views(directives: Seq<Directive>) -> Seq<DirectiveView> {
    directives.map_values(|d: Directive| d@)
}

/// The directive that leaves a display as it was reported.
pub open spec fn native(display: DescriptorView) -> DirectiveView {
    DirectiveView {
        name: display.name,
        x: display.x,
        y: display.y,
        width: display.width,
        height: display.height,
        refresh_millihertz: display.refresh_millihertz,
        scale_hundredths: display.scale_hundredths,
        mirror_of: None,
    }
}

/// The directive that moves a display to the column `x` and changes
/// nothing else.
pub open spec fn placed_at(display: DescriptorView, x: int) -> DirectiveView {
    DirectiveView { x, ..native(display) }
}

/// The directive that makes a display duplicate `source`. Its own geometry
/// is carried along unchanged.
pub open spec fn mirroring(display: DescriptorView, source: DescriptorView) -> DirectiveView {
    DirectiveView { mirror_of: Some(source.name), ..native(display) }
}

/// Mirror: the primary stays as it is and the secondary duplicates it.
pub open spec fn mirror_layout(
    primary: DescriptorView,
    secondary: DescriptorView,
) -> Seq<DirectiveView> {
    seq![native(primary), mirroring(secondary, primary)]
}

/// Extend right: the primary goes to column 0 and the secondary begins
/// where the primary ends, in logical units. Neither row changes.
pub open spec fn extend_right_layout(
    primary: DescriptorView,
    secondary: DescriptorView,
) -> Seq<DirectiveView> {
    seq![placed_at(primary, 0), placed_at(secondary, primary.logical_width())]
}

/// Extend left: the secondary goes to column 0 and the primary begins where
/// the secondary ends, so that the secondary stands to the left. The
/// directive for the secondary comes first, and each directive carries the
/// name of the display that it moves.
pub open spec fn extend_left_layout(
    primary: DescriptorView,
    secondary: DescriptorView,
) -> Seq<DirectiveView> {
    seq![placed_at(secondary, 0), placed_at(primary, secondary.logical_width())]
}

/// The two directives of a mode, in the order in which they are applied.
pub open spec fn layout(
    primary: DescriptorView,
    secondary: DescriptorView,
    mode: Mode,
) -> Seq<DirectiveView> {
    match mode {
        Mode::Mirror => mirror_layout(primary, secondary),
        Mode::ExtendLeft => extend_left_layout(primary, secondary),
        Mode::ExtendRight => extend_right_layout(primary, secondary),
    }
}

/// Resolution and refresh rate as the compositor reads them: width, `x`,
/// height, `@`, and the rate in hertz.
pub open spec fn resolution_text(directive: DirectiveView) -> Seq<char> {
    decimal(directive.width) + "x"@ + decimal(directive.height) + "@"@ + fixed_point(
        directive.refresh_millihertz,
        REFRESH_PLACES as nat,
    )
}

/// A position as the compositor reads it: column, `x`, row.
pub open spec fn position_text(directive: DirectiveView) -> Seq<char> {
    signed_decimal(directive.x) + "x"@ + signed_decimal(directive.y)
}

/// What follows the scale where a display duplicates another: the word
/// `mirror` and the name of the other display.
pub open spec fn mirror_text(mirror_of: Option<Seq<char>>) -> Seq<char> {
    match mirror_of {
        Some(source) => ", mirror, "@ + source,
        None => Seq::<char>::empty(),
    }
}

/// The value of the compositor's `monitor` keyword that states a directive:
/// name, resolution and refresh rate, position, scale, and the mirrored
/// display if there is one.
pub open spec fn keyword_text(directive: DirectiveView) -> Seq<char> {
    directive.name + ", "@ + resolution_text(directive) + ", "@ + position_text(directive) + ", "@
        + fixed_point(directive.scale_hundredths, SCALE_PLACES as nat) + mirror_text(
        directive.mirror_of,
    )
}

impl Directive {
    /// The directive as the value of the compositor's `monitor` keyword.
    pub fn keyword(&self) -> (text: String)
        ensures
            text@ == keyword_text(self@),
    {
        let mut text = self.name.clone();
        text.append(", ");
        let ghost before_resolution = text@;
        append_decimal(&mut text, self.width as u64);
        text.append("x");
        append_decimal(&mut text, self.height as u64);
        text.append("@");
        append_fixed_point(&mut text, self.refresh_millihertz, REFRESH_PLACES);
        text.append(", ");
        let ghost before_position = text@;
        append_signed_decimal(&mut text, self.x as i64);
        text.append("x");
        append_signed_decimal(&mut text, self.y as i64);
        text.append(", ");
        append_fixed_point(&mut text, self.scale_hundredths, SCALE_PLACES);
        let ghost before_mirror = text@;
        match &self.mirror_of {
            Some(source) => {
                text.append(", mirror, ");
                text.append(source.as_str());
            },
            None => {},
        }
        text
    }
}

/// The directive that leaves `display` as it was reported.
pub fn native_directive(display: &Descriptor) -> (directive: Directive)
    ensures
        directive@ == native(display@),
{
    Directive {
        name: display.name().clone(),
        x: display.x(),
        y: display.y(),
        width: display.width(),
        height: display.height(),
        refresh_millihertz: display.refresh_millihertz(),
        scale_hundredths: display.scale_hundredths(),
        mirror_of: None,
    }
}

/// The directives that put every display back where it was reported, one
/// for each display and in the same order.
pub fn reset_to_default_monitor_settings(monitors: &Vec<Descriptor>) -> (directives: Vec<Directive>)
    ensures
        directives@.len() == monitors@.len(),
        forall|i: int|
            0 <= i < monitors@.len() ==> (#[trigger] directives@[i])@ == native(monitors@[i]@),
{
    let mut directives: Vec<Directive> = Vec::new();
    let mut i: usize = 0;
    while i < monitors.len()
        invariant
            i <= monitors@.len(),
            directives@.len() == i,
            forall|j: int| 0 <= j < i ==> (#[trigger] directives@[j])@ == native(monitors@[j]@),
        decreases monitors@.len() - i,
    {
        directives.push(native_directive(&monitors[i]));
        i = i + 1;
    }
    directives
}

/// Mirror: the primary keeps its reported geometry and the secondary is
/// told to duplicate the primary.
pub fn mirror_monitor(primary: &Descriptor, secondary: &Descriptor) -> (directives: [Directive; 2])
    ensures
        views(directives@) == mirror_layout(primary@, secondary@),
{
    let mut second = native_directive(secondary);
    second.mirror_of = Some(primary.name().clone());
    let directives = [native_directive(primary), second];
    directives
}

/// Extend right: the primary is pinned to column 0 and the secondary is
/// placed where the primary ends. The primary's width is converted from
/// physical pixels to logical units first, or the displays would overlap or
/// leave a gap.
pub fn extend_to_right(primary: &Descriptor, secondary: &Descriptor) -> (directives: [Directive; 2])
    ensures
        views(directives@) == extend_right_layout(primary@, secondary@),
{
    let mut first = native_directive(primary);
    first.x = 0;
    let mut second = native_directive(secondary);
    second.x = primary.logical_width();
    let directives = [first, second];
    directives
}

/// Extend left: the secondary is pinned to column 0 and the primary is
/// placed where the secondary ends.
pub fn extend_to_left(primary: &Descriptor, secondary: &Descriptor) -> (directives: [Directive; 2])
    ensures
        views(directives@) == extend_left_layout(primary@, secondary@),
{
    let mut first = native_directive(secondary);
    first.x = 0;
    let mut second = native_directive(primary);
    second.x = secondary.logical_width();
    let directives = [first, second];
    directives
}

/// The two directives that bring about `mode`, in the order in which they
/// are to be applied.
pub fn compute_layout(
    primary: &Descriptor,
    secondary: &Descriptor,
    mode: Mode,
) -> (directives: [Directive; 2])
    ensures
        views(directives@) == layout(primary@, secondary@, mode),
{
    match mode {
        Mode::Mirror => mirror_monitor(primary, secondary),
        Mode::ExtendLeft => extend_to_left(primary, secondary),
        Mode::ExtendRight => extend_to_right(primary, secondary),
    }
}

/// In mirror mode the first directive leaves the primary exactly as it was
/// reported, and the second names the primary as the display to duplicate
/// while it carries the secondary's own geometry.
pub proof fn lemma_mirror_keeps_primary(primary: DescriptorView, secondary: DescriptorView)
    ensures
        layout(primary, secondary, Mode::Mirror).len() == 2,
        layout(primary, secondary, Mode::Mirror)[0] == native(primary),
        layout(primary, secondary, Mode::Mirror)[0].mirror_of is None,
        layout(primary, secondary, Mode::Mirror)[1].mirror_of == Some(primary.name),
        layout(primary, secondary, Mode::Mirror)[1].name == secondary.name,
        layout(primary, secondary, Mode::Mirror)[1].x == secondary.x,
        layout(primary, secondary, Mode::Mirror)[1].y == secondary.y,
{
}

/// In extend-right mode the primary stands at column 0 in its own row, and
/// the secondary stands in its own row at the primary's width divided by the
/// primary's scale, rounded down. Nothing else of either display changes.
pub proof fn lemma_extend_right_placement(primary: DescriptorView, secondary: DescriptorView)
    requires
        primary.valid(),
    ensures
        layout(primary, secondary, Mode::ExtendRight).len() == 2,
        layout(primary, secondary, Mode::ExtendRight)[0] == placed_at(primary, 0),
        layout(primary, secondary, Mode::ExtendRight)[0].x == 0,
        layout(primary, secondary, Mode::ExtendRight)[0].y == primary.y,
        layout(primary, secondary, Mode::ExtendRight)[1] == placed_at(
            secondary,
            (primary.width as int * 100) / (primary.scale_hundredths as int),
        ),
        layout(primary, secondary, Mode::ExtendRight)[1].y == secondary.y,
        ({
            let x = layout(primary, secondary, Mode::ExtendRight)[1].x;
            x * primary.scale_hundredths <= primary.width * 100 < (x + 1)
                * primary.scale_hundredths
        }),
{
    let x = primary.logical_width();
    let scale = primary.scale_hundredths as int;
    let width = primary.width as int * 100;
    assert(x * scale <= width < (x + 1) * scale) by (nonlinear_arith)
        requires
            x == width / scale,
            scale > 0,
    ;
}

/// Extending to the left is extending to the right with the two displays in
/// each other's role: the same two directives in the same order, each still
/// carrying the name and the geometry of the display that it moves.
pub proof fn lemma_extend_left_swaps_roles(a: DescriptorView, b: DescriptorView)
    ensures
        layout(a, b, Mode::ExtendLeft) == layout(b, a, Mode::ExtendRight),
        layout(a, b, Mode::ExtendLeft)[0].name == b.name,
        layout(a, b, Mode::ExtendLeft)[0].x == 0,
        layout(a, b, Mode::ExtendLeft)[1].name == a.name,
        layout(a, b, Mode::ExtendLeft)[1].x == b.logical_width(),
{
}

} // verus!
