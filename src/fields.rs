use vstd::prelude::*;
use crate::error::{field_key, Field, GtError};
use crate::json::Json;

verus! {

/// Runs `f` on the value of `r`, or passes its error on.
pub open spec fn then<A, B>(r: Result<A, GtError>, f: spec_fn(A) -> Result<B, GtError>) -> Result<B, GtError> {
    match r {
        Ok(a) => f(a),
        Err(e) => Err(e),
    }
}

/// The text of a string result.
pub open spec fn text_view(r: Result<String, GtError>) -> Result<Seq<char>, GtError> {
    match r {
        Ok(s) => Ok(s@),
        Err(e) => Err(e),
    }
}

/// The member `f` of `obj`.
pub open spec fn sub_at(obj: Json, f: Field) -> Result<Json, GtError> {
    match obj.spec_get(field_key(f)) {
        Some(v) => Ok(v),
        None => Err(GtError::MissingField(f)),
    }
}

/// The string under `f` in `obj`.
pub open spec fn str_at(obj: Json, f: Field) -> Result<Seq<char>, GtError> {
    match obj.spec_get(field_key(f)) {
        Some(v) => match v.spec_str() {
            Some(s) => Ok(s),
            None => Err(GtError::WrongFieldType(f)),
        },
        None => Err(GtError::MissingField(f)),
    }
}

/// The bytes under `f` in `obj`.
pub open spec fn bytes_at(obj: Json, f: Field) -> Result<Seq<u8>, GtError> {
    match obj.spec_get(field_key(f)) {
        Some(v) => match v.spec_bytes() {
            Some(b) => Ok(b),
            None => Err(GtError::WrongFieldType(f)),
        },
        None => Err(GtError::MissingField(f)),
    }
}

/// The first host of the server list under `f` in `obj`.
pub open spec fn first_server_at(obj: Json, f: Field) -> Result<Seq<char>, GtError> {
    match obj.spec_get(field_key(f)) {
        Some(Json::Array(items)) => if items@.len() == 0 {
            Err(GtError::EmptyList(f))
        } else {
            match items@[0].spec_str() {
                Some(s) => Ok(s),
                None => Err(GtError::WrongFieldType(f)),
            }
        },
        Some(_) => Err(GtError::WrongFieldType(f)),
        None => Err(GtError::MissingField(f)),
    }
}

pub fn read_sub(obj: &Json, f: Field) -> (r: Result<&Json, GtError>)
    ensures
        match r {
            Ok(v) => sub_at(*obj, f) == Ok::<Json, GtError>(*v),
            Err(e) => sub_at(*obj, f) == Err::<Json, GtError>(e),
        },
{
    match obj.get(f.key()) {
        Some(v) => Ok(v),
        None => Err(GtError::MissingField(f)),
    }
}

pub fn read_str(obj: &Json, f: Field) -> (r: Result<String, GtError>)
    ensures
        text_view(r) == str_at(*obj, f),
{
    match obj.get(f.key()) {
        Some(v) => match v.as_str() {
            Some(s) => Ok(s.clone()),
            None => Err(GtError::WrongFieldType(f)),
        },
        None => Err(GtError::MissingField(f)),
    }
}

pub fn read_bytes(obj: &Json, f: Field) -> (r: Result<Vec<u8>, GtError>)
    ensures
        match r {
            Ok(b) => bytes_at(*obj, f) == Ok::<Seq<u8>, GtError>(b@),
            Err(e) => bytes_at(*obj, f) == Err::<Seq<u8>, GtError>(e),
        },
{
    match obj.get(f.key()) {
        Some(v) => match v.as_bytes() {
            Some(b) => Ok(b),
            None => Err(GtError::WrongFieldType(f)),
        },
        None => Err(GtError::MissingField(f)),
    }
}

pub fn read_first_server(obj: &Json, f: Field) -> (r: Result<String, GtError>)
    ensures
        text_view(r) == first_server_at(*obj, f),
{
    match obj.get(f.key()) {
        Some(v) => match v {
            Json::Array(items) => {
                if items.len() == 0 {
                    Err(GtError::EmptyList(f))
                } else {
                    match items[0].as_str() {
                        Some(s) => Ok(s.clone()),
                        None => Err(GtError::WrongFieldType(f)),
                    }
                }
            },
            _ => Err(GtError::WrongFieldType(f)),
        },
        None => Err(GtError::MissingField(f)),
    }
}

} // verus!
