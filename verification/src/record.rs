use vstd::prelude::*;

verus! {

/// One line of child output, trailing newline stripped, tagged with the
/// stream it came from.
#[derive(Debug)]
pub enum P4CliResult {
    /// A line the child wrote to its standard output.
    Out(String),
    /// A line the child wrote to its standard error.
    ErrLine(String),
}

impl P4CliResult {
    /// Whether this record came from standard output.
    pub open spec fn is_out_spec(&self) -> bool {
        match self {
            P4CliResult::Out(_) => true,
            P4CliResult::ErrLine(_) => false,
        }
    }

    /// The line content, whichever stream it came from.
    pub open spec fn text_spec(&self) -> Seq<char> {
        match self {
            P4CliResult::Out(line) => line@,
            P4CliResult::ErrLine(line) => line@,
        }
    }

    /// Whether this record came from standard output.
    pub fn is_out(&self) -> (r: bool)
        ensures
            r == self.is_out_spec(),
    {
        match self {
            P4CliResult::Out(_) => true,
            P4CliResult::ErrLine(_) => false,
        }
    }

    /// The line content as plain text, variant-agnostic: the form in which a
    /// record is passed through or printed.
    pub fn text(&self) -> (r: &String)
        ensures
            r@ == self.text_spec(),
    {
        match self {
            P4CliResult::Out(line) => line,
            P4CliResult::ErrLine(line) => line,
        }
    }
}

} // verus!
