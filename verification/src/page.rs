//! The page state machine.
//!
//! The page owns exactly one current display colour for its whole lifetime.
//! A commit event replaces it with the resolved field text, a randomize event
//! replaces it with a fresh random `rgb(r, g, b)` string when the draw
//! succeeds, and every other event changes nothing. The colour is never the
//! empty string.

use vstd::prelude::*;
use vstd::string::StringExecFns;
use crate::colour::{resolve, spec_resolve};
use crate::rgb::{format_rgb, rgb_values, spec_rgb, GenerationError};

verus! {

/// The input events the page reacts to.
pub enum Msg {
    /// The confirm control was activated or the confirm key pressed: carries
    /// the field text at that moment, or `None` when the field could not be
    /// read.
    ReadInput(Option<String>),
    /// The randomize control was activated.
    GenerateRandomColour,
    /// Any other keystroke: explicitly a no-op.
    DoNothing,
}

/// The widget state: the current display colour and the fixed fallback for
/// empty input.
pub struct Page {
    pub colour: String,
    pub placeholder: String,
}

impl Page {
    /// A page is well formed when its display colour and its placeholder are
    /// both non-empty.
    pub open spec fn wf(&self) -> bool {
        self.colour@.len() > 0 && self.placeholder@.len() > 0
    }

    /// The initial page: a fixed light-blue colour and the fallback `red`.
    pub fn create() -> (p: Page)
        ensures
            p.colour@ == "rgb(73, 206, 235)"@,
            p.placeholder@ == "red"@,
            p.wf(),
    {
        let p = Page {
            colour: String::from_str("rgb(73, 206, 235)"),
            placeholder: String::from_str("red"),
        };
        proof {
            reveal_strlit("rgb(73, 206, 235)");
            reveal_strlit("red");
        }
        p
    }

    /// Commit the field text: the resolved colour replaces the display
    /// colour, the placeholder stays as it is.
    pub fn commit(&mut self, text: &str) -> (changed: bool)
        requires
            old(self).wf(),
        ensures
            changed,
            final(self).wf(),
            final(self).placeholder == old(self).placeholder,
            final(self).colour@ == spec_resolve(text@, old(self).placeholder@),
    {
        let resolved = resolve(text, self.placeholder.as_str());
        self.colour = resolved;
        true
    }

    /// Apply the outcome of one draw from the entropy source: on success the
    /// colour becomes `rgb(r, g, b)` for the drawn triple; on failure nothing
    /// changes at all.
    pub fn apply_random(
        &mut self,
        outcome: Result<(u8, u8, u8), GenerationError>,
    ) -> (changed: bool)
        requires
            old(self).wf(),
        ensures
            final(self).wf(),
            final(self).placeholder == old(self).placeholder,
            (match outcome {
                Ok(t) => changed && final(self).colour@ == spec_rgb(t.0, t.1, t.2),
                Err(_) => !changed && *final(self) == *old(self),
            }),
    {
        match outcome {
            Ok((r, g, b)) => {
                self.colour = format_rgb(r, g, b);
                proof {
                    reveal_strlit("rgb(");
                }
                true
            },
            Err(_) => false,
        }
    }

    /// Dispatch one input event. Commit resolves the field text, randomize
    /// draws a fresh colour and keeps the old one when the draw fails, and
    /// everything else is a no-op. Returns whether the display changed.
    pub fn update(&mut self, msg: Msg) -> (changed: bool)
        requires
            old(self).wf(),
        ensures
            final(self).wf(),
            final(self).placeholder == old(self).placeholder,
            (match msg {
                Msg::ReadInput(Some(text)) => changed && final(self).colour@ == spec_resolve(
                    text@,
                    old(self).placeholder@,
                ),
                Msg::ReadInput(None) => !changed && *final(self) == *old(self),
                Msg::GenerateRandomColour => (changed ==> exists|r: u8, g: u8, b: u8|
                    final(self).colour@ == spec_rgb(r, g, b)) && (!changed ==> *final(self) == *old(
                    self,
                )),
                Msg::DoNothing => !changed && *final(self) == *old(self),
            }),
    {
        match msg {
            Msg::ReadInput(opt) => match opt {
                Some(text) => self.commit(text.as_str()),
                None => false,
            },
            Msg::GenerateRandomColour => {
                let outcome = rgb_values();
                self.apply_random(outcome)
            },
            Msg::DoNothing => false,
        }
    }
}

} // verus!
