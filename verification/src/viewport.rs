//! Screen geometry taken from egui: points and rectangles. The library
//! stores them and hands them back; the one question it asks of them, whether
//! a rectangle contains a point, is answered by egui.

use bevy_egui::egui::{Pos2, Rect};
use vstd::prelude::*;

verus! {

/// `egui::Pos2`, a point on screen, opaque to the verifier.
#[verifier::external_type_specification]
#[verifier::external_body]
pub struct ExPos2(bevy_egui::egui::Pos2);

/// `egui::Rect`, a rectangle on screen, opaque to the verifier.
#[verifier::external_type_specification]
#[verifier::external_body]
pub struct ExRect(bevy_egui::egui::Rect);

/// What `egui::Rect::contains` answers for a rectangle and a point.
pub uninterp spec fn rect_contains(rect: Rect, pos: Pos2) -> bool;

/// `egui::Rect::contains`: whether the point lies within the rectangle. The
/// answer depends on the rectangle and the point alone.
#[verifier::external_body]
pub(crate) fn rect_contains_pos(rect: &Rect, pos: Pos2) -> (inside: bool)
    ensures
        inside == rect_contains(*rect, pos),
{
    rect.contains(pos)
}

} // verus!
