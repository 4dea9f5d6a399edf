//! Why a document was not decoded.
//!
//! Decoding stops at the first value that it cannot accept. The [`Error`] says whether the
//! document has the wrong shape or holds a value outside the accepted domain, what was
//! found, what would have been accepted, and where in the document the value stands.

use vstd::prelude::*;
use serde_json::{Number, Value};
use vstd::string::StringExecFns;
use crate::json::{Json, Num};
use crate::text::{decimal, digits, push_decimal, push_digits};
use crate::value::{json_of, number_of, number_to_string};

verus! {

/// The two ways in which a document can fail to decode.
#[derive(Clone, Copy, Debug, PartialEq, Eq, Structural)]
pub enum ErrorKind {
    /// A required member is absent, or a value has the wrong JSON type, or the text is no
    /// JSON document at all.
    Shape,
    /// A value has the right JSON type and lies outside the accepted set or range.
    Domain,
}

/// What stood where a value was expected.
#[derive(Clone, Debug, PartialEq, Eq)]
pub enum Found {
    /// No member of the expected name.
    Absent,
    Null,
    Bool(bool),
    /// An integer that fits `i64`.
    Integer(i64),
    /// Any other number.
    Number(Number),
    Text(String),
    Array,
    Object,
}

/// The model of a [`Found`].
pub enum FoundView {
    Absent,
    Null,
    Bool(bool),
    Integer(i64),
    Number(Num),
    Text(Seq<char>),
    Array,
    Object,
}

impl View for Found {
    type V = FoundView;

    open spec fn view(&self) -> FoundView {
        match *self {
            Found::Absent => FoundView::Absent,
            Found::Null => FoundView::Null,
            Found::Bool(b) => FoundView::Bool(b),
            Found::Integer(i) => FoundView::Integer(i),
            Found::Number(n) => FoundView::Number(number_of(n)),
            Found::Text(t) => FoundView::Text(t@),
            Found::Array => FoundView::Array,
            Found::Object => FoundView::Object,
        }
    }
}

/// One step on the way from the root of a document to a value in it.
#[derive(Clone, Copy, Debug, PartialEq, Eq)]
pub enum Step {
    /// Into the member of this name.
    Key(&'static str),
    /// Into the item at this index.
    Index(usize),
}

/// The model of a [`Step`].
pub enum StepView {
    Key(Seq<char>),
    Index(nat),
}

impl View for Step {
    type V = StepView;

    open spec fn view(&self) -> StepView {
        match *self {
            Step::Key(k) => StepView::Key(k@),
            Step::Index(i) => StepView::Index(i as nat),
        }
    }
}

impl Step {
    /// Appends the step to `text`, as it is written in a path.
    fn push_text(&self, text: &mut String)
        ensures
            final(text)@ == old(text)@ + self@.text(),
    {
        match self {
            Step::Key(k) => {
                proof {
                    reveal_strlit(".");
                }
                text.append(".");
                text.append(k);
                assert(text@ =~= old(text)@ + (seq!['.'] + k@));
            },
            Step::Index(i) => {
                proof {
                    reveal_strlit("[");
                    reveal_strlit("]");
                }
                text.append("[");
                push_digits(text, *i as u64);
                text.append("]");
                assert(text@ =~= old(text)@ + (seq!['['] + digits(*i as nat) + seq![']']));
            },
        }
    }
}

/// Why a document was not decoded.
#[derive(Clone, Debug, PartialEq, Eq)]
pub struct Error {
    pub kind: ErrorKind,
    /// The offending value.
    pub found: Found,
    /// The accepted domain, in words.
    pub expected: &'static str,
    /// The way from the root of the document to the offending value.
    pub path: Vec<Step>,
}

/// The model of an [`Error`].
pub struct ErrorView {
    pub kind: ErrorKind,
    pub found: FoundView,
    pub expected: Seq<char>,
    pub path: Seq<StepView>,
}

impl View for Error {
    type V = ErrorView;

    open spec fn view(&self) -> ErrorView {
        ErrorView {
            kind: self.kind,
            found: self.found@,
            expected: self.expected@,
            path: self.path@.map_values(|s: Step| s@),
        }
    }
}

/// What a decoder that expected something else reports to have found in `json`.
pub open spec fn found_in(json: Json) -> FoundView {
    match json {
        Json::Null => FoundView::Null,
        Json::Bool(b) => FoundView::Bool(b),
        Json::Number(Num::Int(i)) => if i64::MIN <= i <= i64::MAX {
            FoundView::Integer(i as i64)
        } else {
            FoundView::Number(Num::Int(i))
        },
        Json::Number(Num::Real(bits)) => FoundView::Number(Num::Real(bits)),
        Json::Text(t) => FoundView::Text(t),
        Json::Array(_) => FoundView::Array,
        Json::Object(_) => FoundView::Object,
    }
}

impl ErrorView {
    /// The error for a value of the wrong JSON type.
    pub open spec fn shape(json: Json, expected: Seq<char>) -> ErrorView {
        ErrorView { kind: ErrorKind::Shape, found: found_in(json), expected, path: Seq::empty() }
    }

    /// The error for a text that is no JSON document.
    pub open spec fn no_document(text: Seq<char>) -> ErrorView {
        ErrorView {
            kind: ErrorKind::Shape,
            found: FoundView::Text(text),
            expected: "a JSON document"@,
            path: Seq::empty(),
        }
    }

    /// The error for a required member that is absent.
    pub open spec fn absent(expected: Seq<char>) -> ErrorView {
        ErrorView {
            kind: ErrorKind::Shape,
            found: FoundView::Absent,
            expected,
            path: Seq::empty(),
        }
    }

    /// The error for an integer outside the accepted domain.
    pub open spec fn domain(value: i64, expected: Seq<char>) -> ErrorView {
        ErrorView {
            kind: ErrorKind::Domain,
            found: FoundView::Integer(value),
            expected,
            path: Seq::empty(),
        }
    }

    /// The error for a text outside the accepted domain.
    pub open spec fn unknown(text: Seq<char>, expected: Seq<char>) -> ErrorView {
        ErrorView {
            kind: ErrorKind::Domain,
            found: FoundView::Text(text),
            expected,
            path: Seq::empty(),
        }
    }

    /// The same error, met one step further from the root.
    pub open spec fn under(self, step: StepView) -> ErrorView {
        ErrorView { path: seq![step] + self.path, ..self }
    }
}

impl FoundView {
    /// What was found, in words.
    pub open spec fn text(self) -> Seq<char> {
        match self {
            FoundView::Absent => "nothing"@,
            FoundView::Null => "null"@,
            FoundView::Bool(b) => if b {
                "true"@
            } else {
                "false"@
            },
            FoundView::Integer(i) => decimal(i as int),
            FoundView::Number(n) => n.text(),
            FoundView::Text(t) => seq!['"'] + t + seq!['"'],
            FoundView::Array => "an array"@,
            FoundView::Object => "an object"@,
        }
    }
}

impl StepView {
    /// The step, as it is written in a path: `.key` or `[index]`.
    pub open spec fn text(self) -> Seq<char> {
        match self {
            StepView::Key(k) => seq!['.'] + k,
            StepView::Index(i) => seq!['['] + digits(i) + seq![']'],
        }
    }
}

/// The steps of a path, one behind the other.
pub open spec fn path_text(path: Seq<StepView>) -> Seq<char>
    decreases path.len(),
{
    if path.len() == 0 {
        Seq::empty()
    } else {
        path_text(path.drop_last()) + path.last().text()
    }
}

impl ErrorView {
    /// The error in words: the offending value, the accepted domain, and the path to the
    /// value from the root `$`, where the value does not stand at the root itself.
    pub open spec fn message(self) -> Seq<char> {
        let what = "invalid value: "@ + self.found.text() + ", expected "@ + self.expected;
        if self.path.len() == 0 {
            what
        } else {
            what + " at $"@ + path_text(self.path)
        }
    }
}

impl Found {
    /// Appends to `text` what was found, in words.
    fn push_text(&self, text: &mut String)
        ensures
            final(text)@ == old(text)@ + self@.text(),
    {
        match self {
            Found::Absent => text.append("nothing"),
            Found::Null => text.append("null"),
            Found::Bool(b) => if *b {
                text.append("true")
            } else {
                text.append("false")
            },
            Found::Integer(i) => push_decimal(text, *i),
            Found::Number(n) => text.append(number_to_string(n).as_str()),
            Found::Text(t) => {
                proof {
                    reveal_strlit("\"");
                }
                text.append("\"");
                text.append(t.as_str());
                text.append("\"");
                assert(text@ =~= old(text)@ + (seq!['"'] + t@ + seq!['"']));
            },
            Found::Array => text.append("an array"),
            Found::Object => text.append("an object"),
        }
    }

    /// What stands in `value`, for an error that expected something else.
    pub fn of(value: &Value) -> (r: Found)
        ensures
            r@ == found_in(json_of(*value)),
    {
        if value.is_null() {
            Found::Null
        } else if let Some(b) = value.as_bool() {
            Found::Bool(b)
        } else if let Some(i) = value.as_i64() {
            Found::Integer(i)
        } else if let Some(n) = value.as_number() {
            Found::Number(n.clone())
        } else if let Some(t) = value.as_str() {
            Found::Text(t.to_owned())
        } else if value.as_array().is_some() {
            Found::Array
        } else {
            Found::Object
        }
    }
}

impl Error {
    /// The error for a value of the wrong JSON type.
    pub fn shape(value: &Value, expected: &'static str) -> (r: Error)
        ensures
            r@ == ErrorView::shape(json_of(*value), expected@),
    {
        let r = Error {
            kind: ErrorKind::Shape,
            found: Found::of(value),
            expected,
            path: Vec::new(),
        };
        assert(r@.path =~= Seq::empty());
        r
    }

    /// The error for a text that is no JSON document.
    pub fn no_document(text: &str) -> (r: Error)
        ensures
            r@ == ErrorView::no_document(text@),
    {
        let r = Error {
            kind: ErrorKind::Shape,
            found: Found::Text(text.to_owned()),
            expected: "a JSON document",
            path: Vec::new(),
        };
        assert(r@.path =~= Seq::empty());
        r
    }

    /// The error for a required member that is absent.
    pub fn absent(expected: &'static str) -> (r: Error)
        ensures
            r@ == ErrorView::absent(expected@),
    {
        let r = Error {
            kind: ErrorKind::Shape,
            found: Found::Absent,
            expected,
            path: Vec::new(),
        };
        assert(r@.path =~= Seq::empty());
        r
    }

    /// The error for an integer outside the accepted domain.
    pub fn domain(value: i64, expected: &'static str) -> (r: Error)
        ensures
            r@ == ErrorView::domain(value, expected@),
    {
        let r = Error {
            kind: ErrorKind::Domain,
            found: Found::Integer(value),
            expected,
            path: Vec::new(),
        };
        assert(r@.path =~= Seq::empty());
        r
    }

    /// The error for a text outside the accepted domain.
    pub fn unknown(text: &str, expected: &'static str) -> (r: Error)
        ensures
            r@ == ErrorView::unknown(text@, expected@),
    {
        let r = Error {
            kind: ErrorKind::Domain,
            found: Found::Text(text.to_owned()),
            expected,
            path: Vec::new(),
        };
        assert(r@.path =~= Seq::empty());
        r
    }

    /// The error in words: `invalid value: 2, expected 0 or 1`, and behind it the path
    /// to the value, as in ` at $.imp[0].instl`, where the value does not stand at the
    /// root of the document.
    pub fn message(&self) -> (r: String)
        ensures
            r@ == self@.message(),
    {
        let mut text = String::from_str("invalid value: ");
        self.found.push_text(&mut text);
        text.append(", expected ");
        text.append(self.expected);
        let ghost what = text@;
        assert(what =~= "invalid value: "@ + self@.found.text() + ", expected "@ + self@.expected);
        if self.path.len() > 0 {
            text.append(" at $");
            let ghost steps = self@.path;
            let mut i: usize = 0;
            assert(steps.take(0) =~= Seq::empty());
            while i < self.path.len()
                invariant
                    i <= self.path.len(),
                    steps == self@.path,
                    text@ == what + " at $"@ + path_text(steps.take(i as int)),
                decreases self.path.len() - i,
            {
                assert(steps.take(i + 1).drop_last() =~= steps.take(i as int));
                assert(steps.take(i + 1).last() == self.path@[i as int]@);
                let ghost before = text@;
                self.path[i].push_text(&mut text);
                assert(text@ =~= what + " at $"@ + path_text(steps.take(i + 1)));
                i += 1;
            }
            assert(steps.take(i as int) =~= steps);
        }
        text
    }

    /// The same error, met one step further from the root.
    pub fn under(self, step: Step) -> (r: Error)
        ensures
            r@ == self@.under(step@),
    {
        let mut e = self;
        e.path.insert(0, step);
        assert(e@.path =~= seq![step@] + self@.path);
        e
    }
}

} // verus!
