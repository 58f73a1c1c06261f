use vstd::prelude::*;
use ratatui::style::Style;
use ratatui::widgets::BorderType;
use crate::action::Action;
use crate::presentation::border_type_for;

verus! {

/// A pane that shows a static titled box; only its focus is state.
pub struct ProfilesPane {
    focused: bool,
    focused_border_style: Style,
}

impl ProfilesPane {
    /// Whether the pane has focus.
    pub closed spec fn is_focused(&self) -> bool {
        self.focused
    }

    /// The border style used while the pane has focus.
    pub closed spec fn focus_style(&self) -> Style {
        self.focused_border_style
    }

    pub fn new(focused: bool, focused_border_style: Style) -> (r: Self)
        ensures
            r.is_focused() == focused,
            r.focus_style() == focused_border_style,
    {
        ProfilesPane { focused, focused_border_style }
    }

    pub fn focused(&self) -> (r: bool)
        ensures
            r == self.is_focused(),
    {
        self.focused
    }

    /// The focus style while focused, the default style otherwise.
    pub fn border_style(&self) -> (r: Style)
        ensures
            self.is_focused() ==> r == self.focus_style(),
    {
        if self.focused {
            self.focused_border_style
        } else {
            Style::default()
        }
    }

    /// A thick border while focused, a plain one otherwise.
    pub fn border_type(&self) -> (r: BorderType)
        ensures
            r == border_type_for(self.is_focused()),
    {
        if self.focused {
            BorderType::Thick
        } else {
            BorderType::Plain
        }
    }

    /// One-time setup: there is nothing to set up.
    pub fn init(&mut self)
        ensures
            *final(self) == *old(self),
    {
    }

    pub fn focus(&mut self)
        ensures
            final(self).is_focused(),
            final(self).focus_style() == old(self).focus_style(),
    {
        self.focused = true;
    }

    pub fn unfocus(&mut self)
        ensures
            !final(self).is_focused(),
            final(self).focus_style() == old(self).focus_style(),
    {
        self.focused = false;
    }

    /// The pane reacts to no action.
    pub fn update(&mut self, action: Action) -> (r: Option<Action>)
        ensures
            r is None,
            *final(self) == *old(self),
    {
        None
    }
}

} // verus!
