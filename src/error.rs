use vstd::prelude::*;
use crate::graphemes::push_str;

verus! {

/// The error kinds of the editor.
#[derive(Debug, PartialEq, Eq)]
pub enum Error {
    /// A fixed message.
    Msg(&'static str),
    /// A render was started while another one was running.
    RedrawRcError,
    /// The output channel has no receiver or no sender left.
    SharedStdoutClosed,
    /// A formatter failed.
    Fmt,
    /// A terminal I/O operation failed; the message describes it.
    Io(String),
}

impl Error {
    /// The text that describes the error: the kind, and its message in
    /// double quotes inside parentheses where it has one. The message is
    /// not escaped, so this is the debug form only for messages without
    /// quotes, backslashes or control characters.
    pub open spec fn message_view(&self) -> Seq<char> {
        match self {
            Error::Msg(m) => "Msg(\""@ + m@ + "\")"@,
            Error::RedrawRcError => "RedrawRcError"@,
            Error::SharedStdoutClosed => "SharedStdoutClosed"@,
            Error::Fmt => "Fmt"@,
            Error::Io(m) => "Io(\""@ + m@ + "\")"@,
        }
    }

    /// Describes the error in words.
    pub fn message(&self) -> (r: String)
        ensures
            r@ == self.message_view(),
    {
        let mut r = String::new();
        match self {
            Error::Msg(m) => {
                push_str(&mut r, "Msg(\"");
                push_str(&mut r, m);
                push_str(&mut r, "\")");
            },
            Error::RedrawRcError => {
                push_str(&mut r, "RedrawRcError");
            },
            Error::SharedStdoutClosed => {
                push_str(&mut r, "SharedStdoutClosed");
            },
            Error::Fmt => {
                push_str(&mut r, "Fmt");
            },
            Error::Io(m) => {
                push_str(&mut r, "Io(\"");
                push_str(&mut r, m.as_str());
                push_str(&mut r, "\")");
            },
        }
        proof {
            assert(r@ =~= self.message_view());
        }
        r
    }
}

} // verus!
