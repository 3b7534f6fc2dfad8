//! A JSON value as plain data. Numbers are kept as their JSON literal, so
//! that no precision is lost on the way through the library.

use vstd::prelude::*;
use vstd::string::*;
use crate::text::same_text;

verus! {

/// A JSON number, held as the literal that stands for it in JSON text.
#[derive(Debug)]
pub struct Number {
    pub literal: String,
}

/// A JSON value that holds no other value: what a setting is set to.
#[derive(Debug)]
pub enum Scalar {
    Null,
    Bool(bool),
    Number(Number),
    Text(String),
}

/// A JSON value. The fields of an object keep the order of the document.
#[derive(Debug)]
pub enum Json {
    Null,
    Bool(bool),
    Number(Number),
    Text(String),
    Array(Vec<Json>),
    Object(Vec<(String, Json)>),
}

/// The number that the JSON literal `literal` stands for, read as a 64-bit
/// float and written in decimal with `places` digits after the point;
/// nothing where `literal` is no JSON number. The value is that of
/// `serde_json::from_str`, `serde_json::Number::as_f64` and the standard
/// float formatter, in that order.
pub uninterp spec fn fixed_decimal(literal: Seq<char>, places: nat) -> Option<Seq<char>>;

/// Reads a JSON number literal with `serde_json::from_str`, takes it as a
/// float with `serde_json::Number::as_f64` and writes it with `places`
/// digits after the decimal point. The contract only names the result: it
/// is a function of the two arguments.
#[verifier::external_body]
fn fixed_text(literal: &str, places: usize) -> (r: Option<String>)
    requires
        places <= 32,
    ensures
        match r {
            Some(s) => fixed_decimal(literal@, places as nat) == Some(s@),
            None => fixed_decimal(literal@, places as nat).is_none(),
        },
{
    match serde_json::from_str::<serde_json::Number>(literal) {
        Ok(n) => match n.as_f64() {
            Some(x) => Some(format!("{:.*}", places, x)),
            None => None,
        },
        Err(_) => None,
    }
}

/// What a value shows as in a prompt: a number with one digit after the
/// decimal point, a text as it is, anything else not at all.
pub open spec fn shown_text(v: Scalar) -> Option<Seq<char>> {
    match v {
        Scalar::Number(n) => fixed_decimal(n.literal@, 1),
        Scalar::Text(s) => Some(s@),
        _ => None,
    }
}

/// The first field named `name` among those from index `from` on.
pub open spec fn field_from(fields: Seq<(String, Json)>, name: Seq<char>, from: int) -> Option<
    Json,
>
    decreases fields.len() - from,
{
    if from < 0 || from >= fields.len() {
        None
    } else if fields[from].0@ == name {
        Some(fields[from].1)
    } else {
        field_from(fields, name, from + 1)
    }
}

/// The first field of an object that is named `name`.
pub open spec fn field_of(v: Json, name: Seq<char>) -> Option<Json> {
    match v {
        Json::Object(fields) => field_from(fields@, name, 0),
        _ => None,
    }
}

impl Number {
    /// The number written with one digit after the decimal point.
    pub fn one_decimal(&self) -> (r: Option<String>)
        ensures
            match r {
                Some(s) => fixed_decimal(self.literal@, 1) == Some(s@),
                None => fixed_decimal(self.literal@, 1).is_none(),
            },
    {
        fixed_text(self.literal.as_str(), 1)
    }
}

impl Scalar {
    /// What the value shows as in a prompt.
    pub fn val_str(&self) -> (r: Option<String>)
        ensures
            match r {
                Some(s) => shown_text(*self) == Some(s@),
                None => shown_text(*self).is_none(),
            },
    {
        match self {
            Scalar::Number(n) => n.one_decimal(),
            Scalar::Text(s) => Some(s.clone()),
            _ => None,
        }
    }

    /// A copy of the value.
    pub fn duplicate(&self) -> (r: Self)
        ensures
            r == *self,
    {
        match self {
            Scalar::Null => Scalar::Null,
            Scalar::Bool(b) => Scalar::Bool(*b),
            Scalar::Number(n) => Scalar::Number(Number { literal: n.literal.clone() }),
            Scalar::Text(s) => Scalar::Text(s.clone()),
        }
    }
}

impl Json {
    /// The first field of an object that is named `name`.
    pub fn get(&self, name: &str) -> (r: Option<&Json>)
        ensures
            match r {
                Some(v) => field_of(*self, name@) == Some(*v),
                None => field_of(*self, name@).is_none(),
            },
    {
        match self {
            Json::Object(fields) => {
                let mut i: usize = 0;
                while i < fields.len()
                    invariant
                        i <= fields.len(),
                        *self == Json::Object(*fields),
                        field_from(fields@, name@, 0) == field_from(fields@, name@, i as int),
                    decreases fields.len() - i,
                {
                    if same_text(fields[i].0.as_str(), name) {
                        assert(field_from(fields@, name@, i as int) == Some(fields@[i as int].1));
                        return Some(&fields[i].1);
                    }
                    assert(field_from(fields@, name@, i as int) == field_from(
                        fields@,
                        name@,
                        i + 1,
                    ));
                    i += 1;
                }
                assert(field_from(fields@, name@, i as int).is_none());
                None
            },
            _ => None,
        }
    }
}

} // verus!
