use vstd::prelude::*;
use ratatui::layout::Constraint;
use ratatui::style::Style;
use ratatui::widgets::BorderType;
use crate::action::Action;
use crate::navigation::{next_slot, prev_slot, slot_down, slot_up};
use crate::presentation::border_type_for;
use crate::state::{name_view, Specification, State};
use crate::text::{decimal, decimal_text};

verus! {

/// What the shared selection reads for cursor `c` over the tag names:
/// row 0 is "all tags", row `i > 0` is the tag at `i - 1`.
pub open spec fn selection_for(names: Seq<Seq<char>>, c: nat) -> Option<Seq<char>> {
    if c == 0 {
        None
    } else {
        Some(names[c - 1])
    }
}

/// A selection made from a cursor in range is "all tags" or one of the names.
pub proof fn lemma_selection_is_tag(names: Seq<Seq<char>>, c: nat)
    requires
        c <= names.len(),
    ensures
        match selection_for(names, c) {
            None => true,
            Some(s) => names.contains(s),
        },
{
    if c > 0 {
        assert(names[c - 1] == names[c - 1]);
    }
}

/// The cursor after `action` in a list of `n + 1` rows.
pub open spec fn cursor_after(action: Action, c: nat, n: nat) -> nat {
    match action {
        Action::Down => next_slot(c, n),
        Action::Up => prev_slot(c, n),
        _ => c,
    }
}

/// Whether `action` moves the cursor.
pub open spec fn is_move(action: Action) -> bool {
    action == Action::Down || action == Action::Up
}

/// The height share a pane asks for: more while it has focus.
pub open spec fn height_for(focused: bool) -> Constraint {
    if focused {
        Constraint::Fill(3)
    } else {
        Constraint::Fill(1)
    }
}

/// The first row of the tag list, standing for all tags.
pub open spec fn all_row() -> Seq<char> {
    " [ALL]"@
}

/// The rows of the tag list: "all tags", then one row per tag name, in order.
pub open spec fn list_rows(names: Seq<Seq<char>>) -> Seq<Seq<char>> {
    seq![all_row()] + names.map_values(|name: Seq<char>| " "@ + name)
}

/// The rows of the tag list of a document, each as the text it shows.
pub fn list_lines(spec: &Specification) -> (r: Vec<String>)
    ensures
        r@.map_values(|line: String| line@) == list_rows(spec.tag_names()),
{
    let mut lines: Vec<String> = Vec::new();
    lines.push(String::from_str(" [ALL]"));
    let mut i: usize = 0;
    while i < spec.tags.len()
        invariant
            i <= spec.tags@.len(),
            lines@.len() == i + 1,
            lines@[0]@ == all_row(),
            forall|j: int| 0 <= j < i ==> #[trigger] lines@[j + 1]@ == " "@ + spec.tags@[j].name@,
        decreases spec.tags@.len() - i,
    {
        let mut line = String::from_str(" ");
        line.append(spec.tags[i].name.as_str());
        lines.push(line);
        i = i + 1;
    }
    let ghost names = spec.tag_names();
    let ghost shown = lines@.map_values(|line: String| line@);
    assert(shown =~= list_rows(names)) by {
        assert forall|j: int| 0 <= j < shown.len() implies #[trigger] shown[j] == list_rows(
            names,
        )[j] by {
            if j > 0 {
                assert(lines@[(j - 1) + 1]@ == " "@ + spec.tags@[j - 1].name@);
            }
        }
    }
    lines
}

/// The position shown under the list: the row number, counted from 1, and
/// the number of rows.
pub open spec fn position_text(c: nat, n: nat) -> Seq<char> {
    decimal(c + 1) + " of "@ + decimal(n + 1)
}

/// A pane listing "all tags" and then every tag of the document; its cursor
/// selects one row and the selection is written into the shared state.
pub struct TagsPane {
    focused: bool,
    focused_border_style: Style,
    current_tag_index: usize,
}

impl TagsPane {
    /// Whether the pane has focus.
    pub closed spec fn is_focused(&self) -> bool {
        self.focused
    }

    /// The border style used while the pane has focus.
    pub closed spec fn focus_style(&self) -> Style {
        self.focused_border_style
    }

    /// The selected row: 0 for "all tags", `i > 0` for the tag at `i - 1`.
    pub closed spec fn cursor(&self) -> nat {
        self.current_tag_index as nat
    }

    /// This pane with its focus set to `f` and all else kept.
    pub closed spec fn with_focus(&self, f: bool) -> TagsPane {
        TagsPane { focused: f, ..*self }
    }

    pub fn new(focused: bool, focused_border_style: Style) -> (r: Self)
        ensures
            r.is_focused() == focused,
            r.focus_style() == focused_border_style,
            r.cursor() == 0,
    {
        TagsPane { focused, focused_border_style, current_tag_index: 0 }
    }

    pub fn focused(&self) -> (r: bool)
        ensures
            r == self.is_focused(),
    {
        self.focused
    }

    pub fn current_tag_index(&self) -> (r: usize)
        ensures
            r as nat == self.cursor(),
    {
        self.current_tag_index
    }

    /// The focus style while focused, the default style otherwise.
    pub fn border_style(&self) -> (r: Style)
        ensures
            self.is_focused() ==> r == self.focus_style(),
    {
        if self.focused {
            self.focused_border_style
        } else {
            Style::default()
        }
    }

    /// A thick border while focused, a plain one otherwise.
    pub fn border_type(&self) -> (r: BorderType)
        ensures
            r == border_type_for(self.is_focused()),
    {
        if self.focused {
            BorderType::Thick
        } else {
            BorderType::Plain
        }
    }

    /// One-time setup: there is nothing to set up.
    pub fn init(&mut self)
        ensures
            *final(self) == *old(self),
    {
    }

    pub fn focus(&mut self)
        ensures
            *final(self) == old(self).with_focus(true),
    {
        self.focused = true;
    }

    pub fn unfocus(&mut self)
        ensures
            *final(self) == old(self).with_focus(false),
    {
        self.focused = false;
    }

    /// A focused pane asks for three shares of the height, an unfocused one for one.
    pub fn height_constraint(&self) -> (r: Constraint)
        ensures
            r == height_for(self.is_focused()),
    {
        if self.focused {
            Constraint::Fill(3)
        } else {
            Constraint::Fill(1)
        }
    }

    /// The position title of the pane, `"{cursor + 1} of {N + 1}"`.
    pub fn position_title(&self, spec: &Specification) -> (r: String)
        requires
            self.cursor() < usize::MAX,
            spec.tags@.len() < usize::MAX,
        ensures
            r@ == position_text(self.cursor(), spec.tags@.len()),
    {
        let mut title = decimal_text(self.current_tag_index + 1);
        title.append(" of ");
        let total = decimal_text(spec.tags.len() + 1);
        title.append(total.as_str());
        title
    }

    /// Writes the selection that the cursor stands for into the shared state.
    /// A cursor past the last tag leaves the state as it is.
    fn update_active_tag(&self, state: &mut State)
        ensures
            final(state).openapi_spec == old(state).openapi_spec,
            self.cursor() <= old(state).openapi_spec.tags@.len() ==> {
                &&& name_view(final(state).active_tag_name)
                    == selection_for(old(state).openapi_spec.tag_names(), self.cursor())
                &&& final(state).active_operation_index == 0
            },
            self.cursor() > old(state).openapi_spec.tags@.len() ==> *final(state) == *old(state),
    {
        if self.current_tag_index > 0 {
            if self.current_tag_index - 1 < state.openapi_spec.tags.len() {
                let name = state.openapi_spec.tags[self.current_tag_index - 1].name.clone();
                state.active_tag_name = Some(name);
                state.active_operation_index = 0;
            }
        } else {
            state.active_tag_name = None;
            state.active_operation_index = 0;
        }
    }

    /// Reacts to an action. `Down` and `Up` move the cursor with wraparound
    /// over the `N + 1` rows, write the matching selection into the shared
    /// state and ask for a redraw; every other action changes nothing.
    pub fn update(&mut self, action: Action, state: &mut State) -> (r: Option<Action>)
        requires
            old(state).openapi_spec.tags@.len() < usize::MAX,
        ensures
            final(self).cursor() == cursor_after(
                action,
                old(self).cursor(),
                old(state).openapi_spec.tags@.len(),
            ),
            final(self).is_focused() == old(self).is_focused(),
            final(self).focus_style() == old(self).focus_style(),
            final(state).openapi_spec == old(state).openapi_spec,
            old(state).wf() ==> final(state).wf(),
            is_move(action) ==> {
                &&& final(self).cursor() <= old(state).openapi_spec.tags@.len()
                &&& name_view(final(state).active_tag_name)
                    == selection_for(old(state).openapi_spec.tag_names(), final(self).cursor())
                &&& final(state).active_operation_index == 0
                &&& r == Some(Action::Update)
            },
            !is_move(action) ==> {
                &&& *final(state) == *old(state)
                &&& *final(self) == *old(self)
                &&& r is None
            },
    {
        match action {
            Action::Down => {
                let tags_len = state.openapi_spec.tags.len();
                self.current_tag_index = slot_down(self.current_tag_index, tags_len);
                self.update_active_tag(state);
                proof { lemma_selection_is_tag(state.openapi_spec.tag_names(), self.cursor()); }
                Some(Action::Update)
            },
            Action::Up => {
                let tags_len = state.openapi_spec.tags.len();
                self.current_tag_index = slot_up(self.current_tag_index, tags_len);
                self.update_active_tag(state);
                proof { lemma_selection_is_tag(state.openapi_spec.tag_names(), self.cursor()); }
                Some(Action::Update)
            },
            Action::Submit => None,
            _ => None,
        }
    }
}

/// Focusing a pane and then unfocusing it changes nothing but the focus: the
/// cursor and the focus style stay, and the shared state is not touched.
pub proof fn lemma_focus_then_unfocus(p: TagsPane)
    ensures
        p.with_focus(true).with_focus(false) == p.with_focus(false),
        p.with_focus(true).with_focus(false).cursor() == p.cursor(),
        p.with_focus(true).with_focus(false).focus_style() == p.focus_style(),
        !p.with_focus(true).with_focus(false).is_focused(),
{
}

} // verus!
