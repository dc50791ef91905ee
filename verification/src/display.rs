//! A text field: a string and the flag that says whether it is being
//! edited.

use vstd::prelude::*;
use vstd::string::StringExecFns;
use crate::text::{appended, push_line};

verus! {

/// A piece of text on display, with its edit mode.
pub struct DisplayString {
    pub value: String,
    pub edit_mode: bool,
}

/// The cursor drawn behind a text that is being edited.
pub const CURSOR: char = '\u{2588}';

/// What a text field holds: its text and its edit mode.
pub struct FieldModel {
    pub value: Seq<char>,
    pub edit_mode: bool,
}

impl FieldModel {
    /// The field with one character appended.
    pub open spec fn with_char(self, ch: char) -> FieldModel {
        FieldModel { value: self.value.push(ch), ..self }
    }

    /// The field without its last character.
    pub open spec fn without_last_char(self) -> FieldModel {
        FieldModel { value: without_last(self.value), ..self }
    }

    /// The text as it is drawn: with a cursor behind it while it is being
    /// edited.
    pub open spec fn shown_value(self) -> Seq<char> {
        if self.edit_mode {
            self.value.push(CURSOR)
        } else {
            self.value
        }
    }

    /// The title as it is drawn over the field: marked while the field is
    /// being edited.
    pub open spec fn shown_title(self, title: Seq<char>) -> Seq<char> {
        if self.edit_mode {
            title + " - Editing"@
        } else {
            title
        }
    }

    /// The field in the other edit mode.
    pub open spec fn toggled(self) -> FieldModel {
        FieldModel { edit_mode: !self.edit_mode, ..self }
    }

    /// The field as editing begins: in edit mode, and empty where it
    /// still showed `placeholder`.
    pub open spec fn opened(self, placeholder: Seq<char>) -> FieldModel {
        FieldModel {
            value: if self.value == placeholder {
                Seq::empty()
            } else {
                self.value
            },
            edit_mode: !self.edit_mode,
        }
    }
}

impl View for DisplayString {
    type V = FieldModel;

    open spec fn view(&self) -> FieldModel {
        FieldModel { value: self.value@, edit_mode: self.edit_mode }
    }
}

impl Clone for DisplayString {
    fn clone(&self) -> (copy: DisplayString)
        ensures
            copy == *self,
    {
        DisplayString { value: self.value.clone(), edit_mode: self.edit_mode }
    }
}

impl DisplayString {
    /// A field that shows `value` and is not being edited.
    pub fn new(value: String) -> (field: DisplayString)
        ensures
            field.value == value,
            !field.edit_mode,
    {
        DisplayString { value, edit_mode: false }
    }

    /// Appends one character.
    pub fn add_char(&mut self, ch: char)
        ensures
            final(self).value@ == old(self).value@.push(ch),
            final(self).edit_mode == old(self).edit_mode,
    {
        self.value.push(ch);
    }

    /// Removes the last character, if there is one.
    pub fn remove_last_char(&mut self)
        ensures
            final(self).value@ == without_last(old(self).value@),
            final(self).edit_mode == old(self).edit_mode,
    {
        self.value.pop();
    }

    /// Replaces the text.
    pub fn update_value(&mut self, value: String)
        ensures
            final(self).value == value,
            final(self).edit_mode == old(self).edit_mode,
    {
        self.value = value;
    }

    /// Enters edit mode, or leaves it.
    pub fn toggle_mode(&mut self)
        ensures
            final(self).value == old(self).value,
            final(self).edit_mode == !old(self).edit_mode,
    {
        self.edit_mode = !self.edit_mode;
    }

    /// The text as it is drawn.
    pub fn shown_value(&self) -> (text: String)
        ensures
            text@ == self@.shown_value(),
    {
        let mut text = self.value.clone();
        if self.edit_mode {
            text.push(CURSOR);
        }
        text
    }

    /// The title as it is drawn over the field.
    pub fn shown_title(&self, title: String) -> (text: String)
        ensures
            text@ == self@.shown_title(title@),
    {
        if self.edit_mode {
            title.concat(" - Editing")
        } else {
            title
        }
    }

    /// Appends `value` on a line of its own.
    pub fn append_string(&mut self, value: String)
        ensures
            final(self).value@ == appended(old(self).value@, value@),
            final(self).edit_mode == old(self).edit_mode,
    {
        push_line(&mut self.value, value.as_str());
    }
}

/// `text` without its last character; the empty text stays empty.
pub open spec fn without_last(text: Seq<char>) -> Seq<char> {
    if text.len() == 0 {
        text
    } else {
        text.drop_last()
    }
}

} // verus!
