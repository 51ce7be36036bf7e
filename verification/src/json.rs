//! The library's own model of a JSON document, over plain values only.
//!
//! Responses of the remote API are parsed into this shape once, at the
//! trusted boundary; every decision the library takes about a response is
//! then ordinary verified code over `Json`.

use vstd::prelude::*;

verus! {

/// A JSON document, modelled with plain values only.
///
/// A number with an exact unsigned 64-bit value is kept as `Num`; every other
/// JSON number is kept as text in `NumText`, so that no floating point enters
/// the library. The parser reads such a number as a double and the text is
/// its shortest round-tripping rendering, not necessarily the source literal.
/// An object lists its fields in order; a parsed document hands them over in
/// its map's key order.
#[derive(Debug, PartialEq, Eq)]
pub enum Json {
    Null,
    Bool(bool),
    Num(u64),
    NumText(String),
    Str(String),
    Arr(Vec<Json>),
    Obj(Vec<(String, Json)>),
}

/// The value under `key` among an object's fields: the first binding whose
/// name has exactly the characters of `key`.
pub open spec fn spec_obj_get(fields: Seq<(String, Json)>, key: Seq<char>) -> Option<Json>
    decreases fields.len(),
{
    if fields.len() == 0 {
        None
    } else if fields[0].0@ == key {
        Some(fields[0].1)
    } else {
        spec_obj_get(fields.drop_first(), key)
    }
}

/// Look a field up among an object's fields by name, without taking it.
pub fn obj_get<'a>(fields: &'a Vec<(String, Json)>, key: &String) -> (r: Option<&'a Json>)
    ensures
        match r {
            Some(v) => spec_obj_get(fields@, key@) == Some(*v),
            None => spec_obj_get(fields@, key@) is None,
        },
{
    proof {
        assert(fields@.skip(0) =~= fields@);
    }
    let mut i: usize = 0;
    while i < fields.len()
        invariant
            i <= fields@.len(),
            spec_obj_get(fields@, key@) == spec_obj_get(fields@.skip(i as int), key@),
        decreases fields@.len() - i,
    {
        proof {
            assert(fields@.skip(i as int)[0] == fields@[i as int]);
            assert(fields@.skip(i as int).drop_first() =~= fields@.skip(i as int + 1));
        }
        if fields[i].0.eq(key) {
            proof {
                assert(spec_obj_get(fields@.skip(i as int), key@) == Some(fields@[i as int].1));
            }
            return Some(&fields[i].1);
        }
        i = i + 1;
    }
    proof {
        assert(fields@.skip(i as int).len() == 0);
    }
    None
}

/// Take the field under `key` out of an object's fields, consuming them.
pub fn take1(fields: Vec<(String, Json)>, key: &String) -> (r: Option<Json>)
    ensures
        r == spec_obj_get(fields@, key@),
{
    let (r, _, _) = take3(fields, key, key, key);
    r
}

/// Take the fields under three pairwise distinct names out of an object's
/// fields in one pass, consuming them. For an equal pair of names the two
/// answers could not both be the first binding, so equal names fall back to
/// the first name's lookup alone.
pub fn take3(fields: Vec<(String, Json)>, k1: &String, k2: &String, k3: &String) -> (r: (
    Option<Json>,
    Option<Json>,
    Option<Json>,
))
    ensures
        r.0 == spec_obj_get(fields@, k1@),
        k2@ != k1@ ==> r.1 == spec_obj_get(fields@, k2@),
        k3@ != k1@ && k3@ != k2@ ==> r.2 == spec_obj_get(fields@, k3@),
{
    let ghost all = fields@;
    let mut rest = fields;
    let mut r1: Option<Json> = None;
    let mut r2: Option<Json> = None;
    let mut r3: Option<Json> = None;
    while rest.len() > 0
        invariant
            (match r1 {
                Option::None => spec_obj_get(all, k1@) == spec_obj_get(rest@, k1@),
                Option::Some(v) => spec_obj_get(all, k1@) == Some(v),
            }),
            k2@ != k1@ ==> (match r2 {
                Option::None => spec_obj_get(all, k2@) == spec_obj_get(rest@, k2@),
                Option::Some(v) => spec_obj_get(all, k2@) == Some(v),
            }),
            k3@ != k1@ && k3@ != k2@ ==> (match r3 {
                Option::None => spec_obj_get(all, k3@) == spec_obj_get(rest@, k3@),
                Option::Some(v) => spec_obj_get(all, k3@) == Some(v),
            }),
        decreases rest@.len(),
    {
        let ghost before = rest@;
        let (k, v) = rest.remove(0);
        proof {
            assert(rest@ =~= before.drop_first());
        }
        if r1.is_none() && k.eq(k1) {
            r1 = Some(v);
        } else if r2.is_none() && k.eq(k2) {
            r2 = Some(v);
        } else if r3.is_none() && k.eq(k3) {
            r3 = Some(v);
        }
    }
    proof {
        assert(rest@.len() == 0);
    }
    (r1, r2, r3)
}

} // verus!
