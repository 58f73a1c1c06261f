use vstd::prelude::*;
use ratatui::layout::Constraint;
use ratatui::style::Style;
use ratatui::widgets::BorderType;

verus! {

#[verifier::external_type_specification]
#[verifier::external_body]
pub struct ExStyle(Style);

#[verifier::external_type_specification]
pub struct ExBorderType(BorderType);

#[verifier::external_type_specification]
pub struct ExConstraint(Constraint);

/// Relies on ratatui's derived `Style::default`: the style that changes nothing.
/// Nothing about the value is stated; callers only hand it on.
pub assume_specification[ <Style as core::default::Default>::default ]() -> Style;

/// The border of a pane: emphasised while the pane has focus.
pub open spec fn border_type_for(focused: bool) -> BorderType {
    if focused {
        BorderType::Thick
    } else {
        BorderType::Plain
    }
}

} // verus!
