//! The gender of a user, written as one letter.

use vstd::prelude::*;
use vstd::string::StrSliceExecFns;
use serde_json::Value;
use crate::codec::Codec;
use crate::error::{Error, ErrorView};
use crate::json::Json;

verus! {

/// Gender, where "M" = male, "F" = female, "O" = known to be other.
#[derive(Clone, Copy, Debug, PartialEq, Eq, Structural)]
pub enum Gender {
    Male,
    Female,
    Other,
}

impl Gender {
    /// The text that stands for this variant on the wire.
    pub open spec fn name(self) -> Seq<char> {
        match self {
            Gender::Male => seq!['M'],
            Gender::Female => seq!['F'],
            Gender::Other => seq!['O'],
        }
    }

    /// The variant that `text` stands for, by an exact match, or the error for another
    /// text.
    pub open spec fn of_name(text: Seq<char>) -> Result<Gender, ErrorView> {
        if text == Gender::Male.name() {
            Ok(Gender::Male)
        } else if text == Gender::Female.name() {
            Ok(Gender::Female)
        } else if text == Gender::Other.name() {
            Ok(Gender::Other)
        } else {
            Err(ErrorView::unknown(text, "one of `M`, `F`, `O`"@))
        }
    }

    /// The three names differ, so each is read back as its own variant.
    pub proof fn lemma_names(self)
        ensures
            Gender::of_name(self.name()) == Ok::<Gender, ErrorView>(self),
    {
        assert(Gender::Male.name()[0] == 'M');
        assert(Gender::Female.name()[0] == 'F');
        assert(Gender::Other.name()[0] == 'O');
    }

    /// The text that stands for this variant on the wire. It is read back as the same
    /// variant.
    pub fn serialize(&self) -> (text: &'static str)
        ensures
            text@ == self.name(),
            Gender::of_name(text@) == Ok::<Gender, ErrorView>(*self),
    {
        proof {
            reveal_strlit("M");
            reveal_strlit("F");
            reveal_strlit("O");
            self.lemma_names();
        }
        match self {
            Gender::Male => {
                assert("M"@ =~= seq!['M']);
                "M"
            },
            Gender::Female => {
                assert("F"@ =~= seq!['F']);
                "F"
            },
            Gender::Other => {
                assert("O"@ =~= seq!['O']);
                "O"
            },
        }
    }

    /// The variant that `text` stands for: male for `M`, female for `F`, other for `O`,
    /// letter for letter, and for every other text an error that names it. A variant that
    /// is returned stands for `text`.
    pub fn deserialize(text: &str) -> (r: Result<Gender, Error>)
        ensures
            match (r, Gender::of_name(text@)) {
                (Ok(x), Ok(m)) => x == m,
                (Err(e), Err(f)) => e@ == f,
                _ => false,
            },
            r matches Ok(x) ==> x.name() == text@,
    {
        if text.unicode_len() == 1 {
            let c = text.get_char(0);
            assert(text@ =~= seq![c]);
            assert(Gender::Male.name()[0] == 'M');
            assert(Gender::Female.name()[0] == 'F');
            assert(Gender::Other.name()[0] == 'O');
            if c == 'M' {
                return Ok(Gender::Male);
            } else if c == 'F' {
                return Ok(Gender::Female);
            } else if c == 'O' {
                return Ok(Gender::Other);
            }
        }
        assert(Gender::Male.name().len() == 1);
        assert(Gender::Female.name().len() == 1);
        assert(Gender::Other.name().len() == 1);
        Err(Error::unknown(text, "one of `M`, `F`, `O`"))
    }
}

impl Codec for Gender {
    type Model = Gender;

    open spec fn model(&self) -> Gender {
        *self
    }

    open spec fn valid(m: Gender) -> bool {
        true
    }

    open spec fn current(m: Gender) -> bool {
        true
    }

    open spec fn encoded(m: Gender) -> Json {
        Json::Text(m.name())
    }

    open spec fn decoded(json: Json) -> Result<Gender, ErrorView> {
        match json {
            Json::Text(text) => Gender::of_name(text),
            _ => Err(ErrorView::shape(json, "a string"@)),
        }
    }

    fn to_value(&self) -> (value: Value) {
        self.serialize().to_owned().to_value()
    }

    fn from_value(value: &Value) -> (r: Result<Gender, Error>) {
        match value.as_str() {
            Some(text) => Gender::deserialize(text),
            None => Err(Error::shape(value, "a string")),
        }
    }

    proof fn round_trip(m: Gender) {
        m.lemma_names();
    }

    proof fn decoded_valid(json: Json) {
    }
}

} // verus!
