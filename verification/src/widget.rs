//! The widget a block shows: a text beside an icon, drawn with some urgency.

use vstd::prelude::*;

verus! {

/// How urgently a widget is drawn.
#[derive(Clone, Copy, Debug, PartialEq, Eq, Structural)]
pub enum State {
    Idle,
    Info,
    Good,
    Warning,
    Critical,
}

/// A clickable widget.
#[derive(Clone, Debug)]
pub struct ButtonWidget {
    /// The name under which clicks on the widget are reported.
    pub id: String,
    /// The name of the icon, if the widget has one.
    pub icon: Option<String>,
    /// The text beside the icon; empty when there is nothing to say.
    pub text: String,
    /// The urgency.
    pub state: State,
}

/// What a widget holds, as mathematical values.
pub struct WidgetView {
    pub id: Seq<char>,
    pub icon: Option<Seq<char>>,
    pub text: Seq<char>,
    pub state: State,
}

impl View for ButtonWidget {
    type V = WidgetView;

    open spec fn view(&self) -> WidgetView {
        WidgetView {
            id: self.id@,
            icon: match self.icon {
                Some(name) => Some(name@),
                None => None,
            },
            text: self.text@,
            state: self.state,
        }
    }
}

impl WidgetView {
    /// A widget without icon or text, at rest.
    pub open spec fn blank(id: Seq<char>) -> WidgetView {
        WidgetView { id, icon: None, text: Seq::empty(), state: State::Idle }
    }

    /// The same widget with the icon `name`.
    pub open spec fn with_icon(self, name: Seq<char>) -> WidgetView {
        WidgetView { icon: Some(name), ..self }
    }

    /// The same widget showing `text`.
    pub open spec fn with_text(self, text: Seq<char>) -> WidgetView {
        WidgetView { text, ..self }
    }

    /// The same widget drawn as `state`.
    pub open spec fn with_state(self, state: State) -> WidgetView {
        WidgetView { state, ..self }
    }
}

impl ButtonWidget {
    /// A widget named `id`, without icon or text, at rest.
    pub fn new(id: &str) -> (widget: ButtonWidget)
        ensures
            widget@ == WidgetView::blank(id@),
    {
        ButtonWidget {
            id: String::from_str(id),
            icon: None,
            text: String::new(),
            state: State::Idle,
        }
    }

    /// Gives the widget the icon `name`.
    pub fn with_icon(self, name: &str) -> (widget: ButtonWidget)
        ensures
            widget@ == self@.with_icon(name@),
    {
        ButtonWidget {
            id: self.id,
            icon: Some(String::from_str(name)),
            text: self.text,
            state: self.state,
        }
    }

    /// Replaces the text.
    pub fn set_text(&mut self, text: String)
        ensures
            final(self)@ == old(self)@.with_text(text@),
    {
        self.text = text;
    }

    /// Replaces the urgency.
    pub fn set_state(&mut self, state: State)
        ensures
            final(self)@ == old(self)@.with_state(state),
    {
        self.state = state;
    }
}

} // verus!
