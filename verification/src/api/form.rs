//! Reading parameters out of a decoded form.

use super::{ApiError, ErrorView, Param};
use crate::deps::pairs_view;
use crate::text::{i32_of, parse_i32, parse_u32, u32_of};
use vstd::prelude::*;

verus! {

/// A decoded form: its name/value pairs in the order of the body.
pub type Fields = Seq<(Seq<char>, Seq<char>)>;

/// How often `fields` holds a pair named `name`.
pub open spec fn field_count(fields: Fields, name: Seq<char>) -> nat
    decreases fields.len(),
{
    if fields.len() == 0 {
        0
    } else {
        field_count(fields.drop_last(), name) + if fields.last().0 == name {
            1nat
        } else {
            0nat
        }
    }
}

/// The value of the last pair named `name`.
pub open spec fn field_value(fields: Fields, name: Seq<char>) -> Seq<char>
    decreases fields.len(),
{
    if fields.len() == 0 {
        Seq::empty()
    } else if fields.last().0 == name {
        fields.last().1
    } else {
        field_value(fields.drop_last(), name)
    }
}

/// A parameter that may be absent but not repeated.
pub open spec fn optional_field(fields: Fields, p: Param) -> Result<Option<Seq<char>>, ErrorView> {
    if field_count(fields, p.spec_name()) == 0 {
        Ok(None)
    } else if field_count(fields, p.spec_name()) == 1 {
        Ok(Some(field_value(fields, p.spec_name())))
    } else {
        Err(ErrorView::RepeatedParameter(p))
    }
}

/// A parameter that must be there exactly once.
pub open spec fn required_field(fields: Fields, p: Param) -> Result<Seq<char>, ErrorView> {
    match optional_field(fields, p) {
        Ok(Some(v)) => Ok(v),
        Ok(None) => Err(ErrorView::MissingParameter(p)),
        Err(e) => Err(e),
    }
}

/// An optional parameter that holds a `u32` in decimal.
pub open spec fn optional_u32(fields: Fields, p: Param) -> Result<Option<u32>, ErrorView> {
    match optional_field(fields, p) {
        Ok(Some(v)) => match u32_of(v) {
            Some(n) => Ok(Some(n)),
            None => Err(ErrorView::InvalidParameter(p)),
        },
        Ok(None) => Ok(None),
        Err(e) => Err(e),
    }
}

/// A required parameter that holds a `u32` in decimal.
pub open spec fn required_u32(fields: Fields, p: Param) -> Result<u32, ErrorView> {
    match optional_u32(fields, p) {
        Ok(Some(n)) => Ok(n),
        Ok(None) => Err(ErrorView::MissingParameter(p)),
        Err(e) => Err(e),
    }
}

/// An optional parameter that holds an `i32` in decimal.
pub open spec fn optional_i32(fields: Fields, p: Param) -> Result<Option<i32>, ErrorView> {
    match optional_field(fields, p) {
        Ok(Some(v)) => match i32_of(v) {
            Some(n) => Ok(Some(n)),
            None => Err(ErrorView::InvalidParameter(p)),
        },
        Ok(None) => Ok(None),
        Err(e) => Err(e),
    }
}

/// The view of a result whose error is an `ApiError`.
pub open spec fn text_result(r: Result<String, ApiError>) -> Result<Seq<char>, ErrorView> {
    match r {
        Ok(v) => Ok(v@),
        Err(e) => Err(e@),
    }
}

pub open spec fn optional_text_result(r: Result<Option<String>, ApiError>) -> Result<
    Option<Seq<char>>,
    ErrorView,
> {
    match r {
        Ok(Some(v)) => Ok(Some(v@)),
        Ok(None) => Ok(None),
        Err(e) => Err(e@),
    }
}

pub open spec fn number_result<T>(r: Result<T, ApiError>) -> Result<T, ErrorView> {
    match r {
        Ok(v) => Ok(v),
        Err(e) => Err(e@),
    }
}

/// Reads a parameter that may be absent but not repeated.
pub fn get_optional(form: &Vec<(String, String)>, p: Param) -> (r: Result<Option<String>, ApiError>)
    ensures
        optional_text_result(r) == optional_field(pairs_view(form@), p),
{
    let wanted = p.name().to_owned();
    let ghost fields = pairs_view(form@);
    let ghost name = p.spec_name();
    let mut found: Option<usize> = None;
    let n = form.len();
    let mut i: usize = 0;
    assert(fields.take(0) =~= Seq::empty());
    while i < n
        invariant
            n == form.len(),
            fields == pairs_view(form@),
            name == p.spec_name(),
            wanted@ == name,
            i <= n,
            match found {
                Some(k) => k < i && field_count(fields.take(i as int), name) == 1 && field_value(
                    fields.take(i as int),
                    name,
                ) == form[k as int].1@,
                None => field_count(fields.take(i as int), name) == 0,
            },
        decreases n - i,
    {
        assert(fields.take(i + 1).drop_last() =~= fields.take(i as int));
        assert(fields.take(i + 1).last() == fields[i as int]);
        if form[i].0 == wanted {
            if found.is_some() {
                proof {
                    lemma_field_count_grows(fields, name, i + 1);
                }
                return Err(ApiError::RepeatedParameter(p));
            }
            found = Some(i);
        }
        i = i + 1;
    }
    assert(fields.take(n as int) =~= fields);
    match found {
        Some(k) => Ok(Some(form[k].1.clone())),
        None => Ok(None),
    }
}

/// A longer form holds a name at least as often as any of its prefixes.
pub proof fn lemma_field_count_grows(fields: Fields, name: Seq<char>, i: int)
    requires
        0 <= i <= fields.len(),
    ensures
        field_count(fields.take(i), name) <= field_count(fields, name),
    decreases fields.len(),
{
    if i < fields.len() {
        let t = fields.drop_last();
        assert(t.take(i) =~= fields.take(i));
        lemma_field_count_grows(t, name, i);
    } else {
        assert(fields.take(i) =~= fields);
    }
}

/// Reads a parameter that must be there exactly once.
pub fn get_required(form: &Vec<(String, String)>, p: Param) -> (r: Result<String, ApiError>)
    ensures
        text_result(r) == required_field(pairs_view(form@), p),
{
    match get_optional(form, p) {
        Ok(Some(v)) => Ok(v),
        Ok(None) => Err(ApiError::MissingParameter(p)),
        Err(e) => Err(e),
    }
}

/// Reads an optional parameter that holds a `u32`.
pub fn get_optional_u32(form: &Vec<(String, String)>, p: Param) -> (r: Result<Option<u32>, ApiError>)
    ensures
        number_result(r) == optional_u32(pairs_view(form@), p),
{
    match get_optional(form, p) {
        Ok(Some(v)) => match parse_u32(v.as_str()) {
            Some(n) => Ok(Some(n)),
            None => Err(ApiError::InvalidParameter(p)),
        },
        Ok(None) => Ok(None),
        Err(e) => Err(e),
    }
}

/// Reads a required parameter that holds a `u32`.
pub fn get_required_u32(form: &Vec<(String, String)>, p: Param) -> (r: Result<u32, ApiError>)
    ensures
        number_result(r) == required_u32(pairs_view(form@), p),
{
    match get_optional_u32(form, p) {
        Ok(Some(n)) => Ok(n),
        Ok(None) => Err(ApiError::MissingParameter(p)),
        Err(e) => Err(e),
    }
}

/// Reads an optional parameter that holds an `i32`.
pub fn get_optional_i32(form: &Vec<(String, String)>, p: Param) -> (r: Result<Option<i32>, ApiError>)
    ensures
        number_result(r) == optional_i32(pairs_view(form@), p),
{
    match get_optional(form, p) {
        Ok(Some(v)) => match parse_i32(v.as_str()) {
            Some(n) => Ok(Some(n)),
            None => Err(ApiError::InvalidParameter(p)),
        },
        Ok(None) => Ok(None),
        Err(e) => Err(e),
    }
}

} // verus!
