//! The library's model of a raw metrics document: an arbitrarily nested
//! key/value structure with numeric leaves.
//!
//! Numeric leaves carry fixed-point values (`StatValue`, thousandths), so that
//! threshold comparisons are exact integer comparisons. The boundary code that
//! parses the wire format converts decimal numbers into this representation.

use vstd::prelude::*;

verus! {

/// A metric value in fixed-point form: the observed number times
/// [`STAT_VALUE_SCALE`], rounded by the boundary that produced it.
pub type StatValue = i64;

/// How many fixed-point units make one observed unit.
pub const STAT_VALUE_SCALE: i64 = 1000;

/// One node of a raw per-queue metrics document.
///
/// `Other` stands for any node the monitor never reads into a reading or a
/// path step (arrays, booleans, nulls): present, but of no usable shape.
#[derive(Debug)]
pub enum JsonVal {
    Num(StatValue),
    Text(String),
    Object(Vec<(String, JsonVal)>),
    Other,
}

/// The value under `key` in an object's field list: first match wins.
pub open spec fn spec_lookup(fields: Seq<(String, JsonVal)>, key: Seq<char>) -> Option<JsonVal>
    decreases fields.len(),
{
    if fields.len() == 0 {
        None
    } else if fields[0].0@ == key {
        Some(fields[0].1)
    } else {
        spec_lookup(fields.drop_first(), key)
    }
}

/// Walks `doc` one key at a time; absent at any step means `None`.
pub open spec fn spec_resolve(doc: JsonVal, path: Seq<Seq<char>>) -> Option<JsonVal>
    decreases path.len(),
{
    if path.len() == 0 {
        Some(doc)
    } else {
        match doc {
            JsonVal::Object(fields) => match spec_lookup(fields@, path[0]) {
                Some(v) => spec_resolve(v, path.drop_first()),
                None => None,
            },
            _ => None,
        }
    }
}

/// The views of a sequence of path segments.
pub open spec fn strs_view(path: Seq<&str>) -> Seq<Seq<char>> {
    path.map_values(|s: &str| s@)
}

/// Character-by-character string comparison.
pub fn str_eq(a: &str, b: &str) -> (r: bool)
    ensures
        r == (a@ == b@),
{
    let a_len = a.unicode_len();
    let b_len = b.unicode_len();
    if a_len != b_len {
        return false;
    }
    let mut i: usize = 0;
    while i < a_len
        invariant
            a_len == a@.len(),
            b_len == b@.len(),
            a_len == b_len,
            i <= a_len,
            forall|j: int| 0 <= j < i ==> a@[j] == b@[j],
        decreases a_len - i,
    {
        if a.get_char(i) != b.get_char(i) {
            return false;
        }
        i += 1;
    }
    proof {
        assert(a@ =~= b@);
    }
    true
}

/// The value stored under `key`, if any; first matching field wins.
pub fn lookup_field<'a>(fields: &'a Vec<(String, JsonVal)>, key: &str) -> (r: Option<
    &'a JsonVal,
>)
    ensures
        match r {
            Some(v) => spec_lookup(fields@, key@) == Some(*v),
            None => spec_lookup(fields@, key@) is None,
        },
{
    let mut j: usize = 0;
    proof {
        assert(fields@.skip(0) =~= fields@);
    }
    while j < fields.len()
        invariant
            j <= fields.len(),
            spec_lookup(fields@, key@) == spec_lookup(fields@.skip(j as int), key@),
        decreases fields.len() - j,
    {
        proof {
            assert(fields@.skip(j as int)[0] == fields@[j as int]);
        }
        if str_eq(fields[j].0.as_str(), key) {
            return Some(&fields[j].1);
        }
        proof {
            assert(fields@.skip(j as int).drop_first() =~= fields@.skip(j + 1));
        }
        j += 1;
    }
    proof {
        assert(fields@.skip(j as int).len() == 0);
    }
    None
}

/// Resolves a dotted source path, given as its key segments, against a
/// document node.
pub fn get_by_path<'a>(path: &Vec<&str>, json_value: &'a JsonVal) -> (r: Option<&'a JsonVal>)
    ensures
        match r {
            Some(v) => spec_resolve(*json_value, strs_view(path@)) == Some(*v),
            None => spec_resolve(*json_value, strs_view(path@)) is None,
        },
{
    let ghost pv = strs_view(path@);
    let mut cur: &JsonVal = json_value;
    let mut i: usize = 0;
    proof {
        assert(pv.skip(0) =~= pv);
    }
    while i < path.len()
        invariant
            i <= path.len(),
            pv == strs_view(path@),
            pv.len() == path.len(),
            spec_resolve(*json_value, pv) == spec_resolve(*cur, pv.skip(i as int)),
        decreases path.len() - i,
    {
        proof {
            assert(pv.skip(i as int)[0] == pv[i as int]);
            assert(pv[i as int] == path@[i as int]@);
            assert(pv.skip(i as int).drop_first() =~= pv.skip(i + 1));
        }
        match cur {
            JsonVal::Object(fields) => {
                match lookup_field(fields, path[i]) {
                    Some(v) => {
                        cur = v;
                    },
                    None => {
                        return None;
                    },
                }
            },
            _ => {
                return None;
            },
        }
        i += 1;
    }
    proof {
        assert(pv.skip(i as int) =~= Seq::<Seq<char>>::empty());
    }
    Some(cur)
}

} // verus!
