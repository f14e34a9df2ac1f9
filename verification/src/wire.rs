use crate::error::CellError;
use crate::json::{
    bool_from_json, bool_text, bool_to_json, bool_value, i32_from_json, i32_text, i32_to_json,
    i32_value, json_string_value, lemma_bool_text_value, lemma_i32_text_value,
    lemma_i32_value_is, string_from_json, string_text, string_to_json,
};
use vstd::prelude::*;

verus! {

/// A value that a cell can hold: one with a textual encoding for the remote
/// store and the channel.
pub trait Wire: View + Sized {
    /// Whether the value has an encoding.
    spec fn encodes(v: Self::V) -> bool;

    /// The text that stands for the value.
    spec fn encoding(v: Self::V) -> Seq<char>;

    /// The value that a text stands for, if it stands for one.
    spec fn decoding(text: Seq<char>) -> Option<Self::V>;

    /// Encodes the value; fails with `Serialization` exactly where it has no
    /// encoding. The text that comes out decodes to the value again.
    fn encode(&self) -> (r: Result<String, CellError>)
        ensures
            match r {
                Ok(text) => {
                    &&& Self::encodes(self@)
                    &&& text@ == Self::encoding(self@)
                    &&& Self::decoding(text@) == Some(self@)
                },
                Err(e) => !Self::encodes(self@) && e == CellError::Serialization,
            },
    ;

    /// Decodes a text; fails with `Serialization` exactly where it stands for
    /// no value.
    fn decode(text: &str) -> (r: Result<Self, CellError>)
        ensures
            match r {
                Ok(v) => Self::decoding(text@) == Some(v@),
                Err(e) => Self::decoding(text@) is None && e == CellError::Serialization,
            },
    ;

    /// A copy of the value.
    fn duplicate(&self) -> (r: Self)
        ensures
            r@ == self@,
    ;
}

impl Wire for String {
    open spec fn encodes(v: Seq<char>) -> bool {
        true
    }

    open spec fn encoding(v: Seq<char>) -> Seq<char> {
        string_text(v)
    }

    open spec fn decoding(text: Seq<char>) -> Option<Seq<char>> {
        json_string_value(text)
    }

    fn encode(&self) -> (r: Result<String, CellError>) {
        match string_to_json(self) {
            Ok(text) => Ok(text),
            Err(_) => Err(CellError::Serialization),
        }
    }

    fn decode(text: &str) -> (r: Result<String, CellError>) {
        match string_from_json(text) {
            Ok(s) => Ok(s),
            Err(_) => Err(CellError::Serialization),
        }
    }

    fn duplicate(&self) -> (r: String) {
        self.clone()
    }
}

impl Wire for i32 {
    open spec fn encodes(v: i32) -> bool {
        true
    }

    open spec fn encoding(v: i32) -> Seq<char> {
        i32_text(v)
    }

    open spec fn decoding(text: Seq<char>) -> Option<i32> {
        i32_value(text)
    }

    fn encode(&self) -> (r: Result<String, CellError>) {
        match i32_to_json(self) {
            Ok(text) => {
                proof {
                    lemma_i32_text_value(*self);
                }
                Ok(text)
            },
            Err(_) => Err(CellError::Serialization),
        }
    }

    fn decode(text: &str) -> (r: Result<i32, CellError>) {
        match i32_from_json(text) {
            Ok(v) => {
                proof {
                    lemma_i32_value_is(text@, v);
                }
                Ok(v)
            },
            Err(_) => Err(CellError::Serialization),
        }
    }

    fn duplicate(&self) -> (r: i32) {
        *self
    }
}

impl Wire for bool {
    open spec fn encodes(v: bool) -> bool {
        true
    }

    open spec fn encoding(v: bool) -> Seq<char> {
        bool_text(v)
    }

    open spec fn decoding(text: Seq<char>) -> Option<bool> {
        bool_value(text)
    }

    fn encode(&self) -> (r: Result<String, CellError>) {
        match bool_to_json(self) {
            Ok(text) => {
                proof {
                    lemma_bool_text_value(*self);
                }
                Ok(text)
            },
            Err(_) => Err(CellError::Serialization),
        }
    }

    fn decode(text: &str) -> (r: Result<bool, CellError>) {
        match bool_from_json(text) {
            Ok(b) => Ok(b),
            Err(_) => Err(CellError::Serialization),
        }
    }

    fn duplicate(&self) -> (r: bool) {
        *self
    }
}

} // verus!
