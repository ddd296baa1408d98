//! The state behind the overlay's controls: the background colour, the text
//! field, and whether the colour picker is open.

use vstd::prelude::*;

verus! {

/// What the controls report. `C` is the type of a colour.
#[derive(Debug, Clone)]
pub enum Message<C> {
    /// A slider moved: this is the colour it gives.
    BackgroundColorChanged(C),
    /// The text field holds this now.
    TextChanged(String),
    /// The button that opens the colour picker was pressed.
    ChooseColor,
    /// The colour picker was closed with this colour chosen.
    SubmitColor(C),
    /// The colour picker was closed without a choice.
    CancelColor,
}

/// What the controls report, as a value.
pub enum MessageView<C> {
    BackgroundColorChanged(C),
    TextChanged(Seq<char>),
    ChooseColor,
    SubmitColor(C),
    CancelColor,
}

impl<C> View for Message<C> {
    type V = MessageView<C>;

    open spec fn view(&self) -> MessageView<C> {
        match self {
            Message::BackgroundColorChanged(color) => MessageView::BackgroundColorChanged(*color),
            Message::TextChanged(text) => MessageView::TextChanged(text@),
            Message::ChooseColor => MessageView::ChooseColor,
            Message::SubmitColor(color) => MessageView::SubmitColor(*color),
            Message::CancelColor => MessageView::CancelColor,
        }
    }
}

/// The state behind the controls.
pub struct Controls<C> {
    picker_shown: bool,
    background_color: C,
    text: String,
}

/// The state behind the controls, as a value.
pub struct ControlsView<C> {
    pub picker_shown: bool,
    pub background_color: C,
    pub text: Seq<char>,
}

impl<C> ControlsView<C> {
    /// The controls as they start: the picker closed, the text empty.
    pub open spec fn initial(background_color: C) -> ControlsView<C> {
        ControlsView { picker_shown: false, background_color, text: Seq::empty() }
    }

    /// The controls after a message. A changed colour or text is taken;
    /// choosing opens the picker; submitting takes the colour and closes the
    /// picker; cancelling closes it and keeps the colour.
    pub open spec fn updated(self, message: MessageView<C>) -> ControlsView<C> {
        match message {
            MessageView::BackgroundColorChanged(color) => ControlsView {
                background_color: color,
                ..self
            },
            MessageView::TextChanged(text) => ControlsView { text, ..self },
            MessageView::ChooseColor => ControlsView { picker_shown: true, ..self },
            MessageView::SubmitColor(color) => ControlsView {
                background_color: color,
                picker_shown: false,
                ..self
            },
            MessageView::CancelColor => ControlsView { picker_shown: false, ..self },
        }
    }
}

impl<C> View for Controls<C> {
    type V = ControlsView<C>;

    closed spec fn view(&self) -> ControlsView<C> {
        ControlsView {
            picker_shown: self.picker_shown,
            background_color: self.background_color,
            text: self.text@,
        }
    }
}

impl<C> Controls<C> {
    /// The controls as they start, showing `background_color`.
    pub fn new(background_color: C) -> (controls: Controls<C>)
        ensures
            controls@ == ControlsView::initial(background_color),
    {
        Controls { picker_shown: false, background_color, text: String::new() }
    }

    /// The background colour that the controls hold.
    pub fn background_color(&self) -> (color: C) where C: Copy
        ensures
            color == self@.background_color,
    {
        self.background_color
    }

    /// What the text field holds.
    pub fn text(&self) -> (text: &String)
        ensures
            text@ == self@.text,
    {
        &self.text
    }

    /// Whether the colour picker is open.
    pub fn picker_shown(&self) -> (shown: bool)
        ensures
            shown == self@.picker_shown,
    {
        self.picker_shown
    }

    /// Takes a message from the controls.
    pub fn update(&mut self, message: Message<C>)
        ensures
            final(self)@ == old(self)@.updated(message@),
    {
        match message {
            Message::BackgroundColorChanged(color) => {
                self.background_color = color;
            },
            Message::TextChanged(text) => {
                self.text = text;
            },
            Message::ChooseColor => {
                self.picker_shown = true;
            },
            Message::SubmitColor(color) => {
                self.background_color = color;
                self.picker_shown = false;
            },
            Message::CancelColor => {
                self.picker_shown = false;
            },
        }
    }
}

} // verus!
