//! Form state: the text of each input field and the last computed output.

use vstd::prelude::*;

verus! {

/// The free-text fields of the form. The email field belongs to the
/// confirmation form, the link field to the report form; validation reads
/// whichever its variant needs. No invariant holds at construction: every
/// field starts empty and the user may type anything.
pub struct FormInput {
    pub email: String,
    pub start_date: String,
    pub end_date: String,
    pub link: String,
}

impl FormInput {
    /// A form with every field empty.
    pub fn new() -> (f: FormInput)
        ensures
            f.email@ == Seq::<char>::empty(),
            f.start_date@ == Seq::<char>::empty(),
            f.end_date@ == Seq::<char>::empty(),
            f.link@ == Seq::<char>::empty(),
    {
        FormInput {
            email: String::new(),
            start_date: String::new(),
            end_date: String::new(),
            link: String::new(),
        }
    }
}

/// The whole form: its input fields and the text last shown in the result
/// panel. The rendering layer reads and writes the fields directly.
pub struct FormState {
    pub input: FormInput,
    pub result: String,
}

impl FormState {
    /// A fresh form: every field empty, nothing in the result panel.
    pub fn new() -> (s: FormState)
        ensures
            s.input.email@ == Seq::<char>::empty(),
            s.input.start_date@ == Seq::<char>::empty(),
            s.input.end_date@ == Seq::<char>::empty(),
            s.input.link@ == Seq::<char>::empty(),
            s.result@ == Seq::<char>::empty(),
    {
        FormState { input: FormInput::new(), result: String::new() }
    }

    /// Stores `text` as the output shown in the result panel; the input
    /// fields keep their values.
    pub fn record_result(&mut self, text: String)
        ensures
            final(self).result@ == text@,
            final(self).input.email@ == old(self).input.email@,
            final(self).input.start_date@ == old(self).input.start_date@,
            final(self).input.end_date@ == old(self).input.end_date@,
            final(self).input.link@ == old(self).input.link@,
    {
        self.result = text;
    }
}

} // verus!
