//! The error messages of the server.

use crate::jira::doc::attrs_view;
use crate::jira::render::joined;
use vstd::prelude::*;
use vstd::string::*;

verus! {

/// What the server says went wrong: general messages, and messages about single fields.
#[derive(Debug)]
pub struct ErrorCollection {
    pub error_messages: Vec<String>,
    pub errors: Vec<(String, String)>,
}

/// What an `ErrorCollection` holds.
pub struct ErrorCollectionView {
    pub error_messages: Seq<Seq<char>>,
    pub errors: Seq<(Seq<char>, Seq<char>)>,
}

/// The characters of each string of a list.
pub open spec fn texts_view(texts: Seq<String>) -> Seq<Seq<char>> {
    Seq::new(texts.len(), |i: int| texts[i]@)
}

impl View for ErrorCollection {
    type V = ErrorCollectionView;

    open spec fn view(&self) -> ErrorCollectionView {
        ErrorCollectionView {
            error_messages: texts_view(self.error_messages@),
            errors: attrs_view(self.errors@),
        }
    }
}

/// A field's message as it is shown: the field's name, a colon, the message.
pub open spec fn field_line(field: (Seq<char>, Seq<char>)) -> Seq<char> {
    field.0 + ": "@ + field.1
}

/// Every message of a collection: the general ones, then one line for each field.
pub open spec fn error_lines(c: ErrorCollectionView) -> Seq<Seq<char>> {
    c.error_messages + Seq::new(c.errors.len(), |i: int| field_line(c.errors[i]))
}

/// The collection as one line: its messages with a comma and a space between
/// them, or `Unknown error` where it has none.
pub open spec fn collection_text(c: ErrorCollectionView) -> Seq<char> {
    let lines = error_lines(c);
    if lines.len() == 0 {
        "Unknown error"@
    } else {
        joined(lines, ", "@, lines.len())
    }
}

impl ErrorCollection {
    /// The collection as one line of text.
    pub fn to_string(&self) -> (text: String)
        ensures
            text@ == collection_text(self@),
    {
        let ghost lines = error_lines(self@);
        let mut text = String::new();
        let mut i: usize = 0;
        assert(text@ =~= joined(lines, ", "@, 0));
        while i < self.error_messages.len()
            invariant
                0 <= i <= self.error_messages@.len(),
                lines == error_lines(self@),
                text@ == joined(lines, ", "@, i as nat),
            decreases self.error_messages@.len() - i,
        {
            let ghost before = text@;
            if i > 0 {
                text.append(", ");
            }
            text.append(self.error_messages[i].as_str());
            proof {
                assert(lines[i as int] == self.error_messages@[i as int]@);
            }
            i += 1;
            assert(text@ =~= joined(lines, ", "@, i as nat));
        }
        let n = self.error_messages.len();
        let mut j: usize = 0;
        while j < self.errors.len()
            invariant
                0 <= j <= self.errors@.len(),
                n == self.error_messages@.len(),
                lines == error_lines(self@),
                text@ == joined(lines, ", "@, (n + j) as nat),
            decreases self.errors@.len() - j,
        {
            if n > 0 || j > 0 {
                text.append(", ");
            }
            text.append(self.errors[j].0.as_str());
            text.append(": ");
            text.append(self.errors[j].1.as_str());
            proof {
                assert(lines[n + j] == field_line(self@.errors[j as int]));
            }
            j += 1;
            assert(text@ =~= joined(lines, ", "@, (n + j) as nat));
        }
        if n == 0 && self.errors.len() == 0 {
            text.append("Unknown error");
            assert(text@ =~= "Unknown error"@);
        }
        text
    }
}

} // verus!
