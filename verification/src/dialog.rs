use vstd::prelude::*;

verus! {

/// A message for the user, shown in a modal dialog.
#[derive(Clone, Debug)]
pub enum Dialog {
    Error(String),
    Info(String),
    Warning(String),
    Success(String),
}

/// The look a dialog is shown with.
#[derive(Clone, Copy, Debug, PartialEq, Eq, Structural)]
pub enum DialogStyle {
    Error,
    Success,
}

impl Dialog {
    pub open spec fn spec_text(&self) -> Seq<char> {
        match self {
            Dialog::Error(m) => m@,
            Dialog::Info(m) => m@,
            Dialog::Warning(m) => m@,
            Dialog::Success(m) => m@,
        }
    }

    /// The message the dialog tells.
    pub fn text(&self) -> (r: &str)
        ensures
            r@ == self.spec_text(),
    {
        match self {
            Dialog::Error(m) => m.as_str(),
            Dialog::Info(m) => m.as_str(),
            Dialog::Warning(m) => m.as_str(),
            Dialog::Success(m) => m.as_str(),
        }
    }

    /// Errors are shown as errors; every other dialog as a success.
    pub fn style(&self) -> (r: DialogStyle)
        ensures
            r == (if self is Error {
                DialogStyle::Error
            } else {
                DialogStyle::Success
            }),
    {
        match self {
            Dialog::Error(_) => DialogStyle::Error,
            _ => DialogStyle::Success,
        }
    }
}

} // verus!
