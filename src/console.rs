use vstd::prelude::*;
use vstd::string::StringExecFns;

verus! {

/// Watches a text field that feeds the session and describes each editing
/// step in a line of log text; the embedding program writes the lines out.
#[derive(Debug, Default)]
pub struct ConsoleLogger;

fn label_line(label: &str, value: &str) -> (r: String)
    ensures
        r@ == label@ + value@,
{
    let mut line = label.to_owned();
    line.append(value);
    line
}

impl ConsoleLogger {
    /// Editing may always begin.
    pub fn text_should_begin_editing(&self, value: &str) -> (r: bool)
        ensures
            r,
    {
        true
    }

    /// The line logged when editing begins with `value`.
    pub fn begin_editing_line(&self, value: &str) -> (r: String)
        ensures
            r@ == "Should begin with value: "@ + value@,
    {
        label_line("Should begin with value: ", value)
    }

    /// The line logged when the text changes to `value`.
    pub fn text_did_change(&self, value: &str) -> (r: String)
        ensures
            r@ == "Did change to: "@ + value@,
    {
        label_line("Did change to: ", value)
    }

    /// The line logged when editing ends with `value`.
    pub fn text_did_end_editing(&self, value: &str) -> (r: String)
        ensures
            r@ == "Ended: "@ + value@,
    {
        label_line("Ended: ", value)
    }
}

} // verus!
