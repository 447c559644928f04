//! The error of reading a colour text at run time.

use vstd::prelude::*;

verus! {

/// What goes wrong when a colour text is read at run time.
#[derive(Debug)]
pub enum Error {
    /// The text is not a colour; the string says why.
    ParseError(String),
}

impl Error {
    /// The reason that the error carries.
    pub open spec fn reason(&self) -> Seq<char> {
        match self {
            Error::ParseError(reason) => reason@,
        }
    }

    /// The error as one line of text: `parse error: ` and the reason.
    pub fn describe(&self) -> (line: String)
        ensures
            line@ == "parse error: "@ + self.reason(),
    {
        let mut line = "parse error: ".to_owned();
        match self {
            Error::ParseError(reason) => {
                line.append(reason.as_str());
            },
        }
        line
    }
}

} // verus!
