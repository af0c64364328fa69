use vstd::prelude::*;

use crate::text::{hex, push_hex};

verus! {

/// An error with a message for the user and, where there is one, the error
/// code of the system call that failed.
#[derive(Debug)]
pub struct AppError {
    message: String,
    code: Option<usize>,
}

/// What the user is told when the application has failed: the reason, if
/// one is known, the details of the failure, and where they were saved.
pub open spec fn panic_text(reason: Option<Seq<char>>, details: Seq<char>, saved_to: Seq<char>) -> Seq<
    char,
> {
    (match reason {
        Some(reason) => "Unexpected error: "@ + reason + "."@,
        None => "An unexpected error ocurred but no additional error information was supplied."@,
    }) + "\n\nPanic Information:\n\n"@ + details + "\n\nBacktrace saved to '"@ + saved_to
        + "'.\n\nSorry. :("@
}

/// Returns the message that tells the user that the application has failed.
/// `reason` is the message of the failure, if it has one, `details` what is
/// known of it, and `saved_to` the path of the file that holds the details.
pub fn on_panic(reason: Option<&str>, details: &str, saved_to: &str) -> (r: String)
    ensures
        r@ == panic_text(
            match reason {
                Some(reason) => Some(reason@),
                None => None,
            },
            details@,
            saved_to@,
        ),
{
    let mut message = match reason {
        Some(reason) => {
            let mut begin = String::from_str("Unexpected error: ");
            begin.append(reason);
            begin.append(".");
            begin
        },
        None => String::from_str(
            "An unexpected error ocurred but no additional error information was supplied.",
        ),
    };
    message.append("\n\nPanic Information:\n\n");
    message.append(details);
    message.append("\n\nBacktrace saved to '");
    message.append(saved_to);
    message.append("'.\n\nSorry. :(");
    message
}

impl AppError {
    /// The message of the error.
    pub closed spec fn message(&self) -> Seq<char> {
        self.message@
    }

    /// The error code, if there is one.
    pub closed spec fn code(&self) -> Option<usize> {
        self.code
    }

    /// The text shown for an error with the given message and code: the
    /// message alone, or the message followed by the code in hexadecimal with
    /// at least four digits.
    pub open spec fn text_of(message: Seq<char>, code: Option<usize>) -> Seq<char> {
        match code {
            Some(v) => message + " (error code "@ + hex(v as nat, 4) + ")."@,
            None => message,
        }
    }

    /// Creates an error.
    pub fn new(message: &str, code: Option<usize>) -> (r: Self)
        ensures
            r.message() == message@,
            r.code() == code,
    {
        Self { message: String::from_str(message), code }
    }

    /// Returns the text shown for this error.
    pub fn to_string(&self) -> (r: String)
        ensures
            r@ == Self::text_of(self.message(), self.code()),
    {
        let mut text = self.message.clone();
        match self.code {
            Some(v) => {
                text.append(" (error code ");
                push_hex(&mut text, v as u64, 4);
                text.append(").");
            },
            None => {},
        }
        text
    }
}

} // verus!
