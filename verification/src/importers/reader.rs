//! Reading typed values out of JSON.
//!
//! A type says with [`FromJson::parse`] which values it reads from and what
//! it reads; the functions here read members and lists of any such type.

use crate::error::{ImportError, Section};
use crate::json::{trees, Json, JsonTree};
use crate::Scalar;
use vstd::prelude::*;

verus! {

/// A type whose values can be read from JSON.
pub trait FromJson: Sized + DeepView {
    /// What `tree` reads as, or nothing where it does not have the shape.
    spec fn parse(tree: JsonTree) -> Option<Self::V>;

    /// Reads a value, or nothing where the JSON does not have the shape.
    fn from_json(json: &Json) -> (r: Option<Self>)
        ensures
            r.deep_view() == Self::parse(json@),
    ;
}

/// The first `n` of `items` read one by one: what they read as, or the place
/// of the first that does not have the shape.
pub open spec fn parse_prefix<T: FromJson>(items: Seq<JsonTree>, n: int) -> Result<Seq<T::V>, int>
    decreases n,
{
    if n <= 0 {
        Ok(Seq::empty())
    } else {
        match parse_prefix::<T>(items, n - 1) {
            Err(i) => Err(i),
            Ok(done) => match T::parse(items[n - 1]) {
                Some(x) => Ok(done.push(x)),
                None => Err(n - 1),
            },
        }
    }
}

/// All of `items` read one by one.
pub open spec fn parse_items<T: FromJson>(items: Seq<JsonTree>) -> Result<Seq<T::V>, int> {
    parse_prefix::<T>(items, items.len() as int)
}

/// Once an item has failed, reading further changes nothing.
pub proof fn lemma_failure_stays<T: FromJson>(items: Seq<JsonTree>, m: int, n: int)
    requires
        parse_prefix::<T>(items, m) is Err,
        m <= n,
    ensures
        parse_prefix::<T>(items, n) == parse_prefix::<T>(items, m),
    decreases n - m,
{
    if m < n {
        lemma_failure_stays::<T>(items, m, n - 1);
    }
}

/// Where reading succeeds, every item reads as what stands at its place; where
/// it fails, the place reported is that of the first item that does not.
pub proof fn lemma_parse_prefix<T: FromJson>(items: Seq<JsonTree>, n: int)
    requires
        0 <= n,
    ensures
        match parse_prefix::<T>(items, n) {
            Ok(s) => s.len() == n && forall|i: int|
                0 <= i < n ==> T::parse(#[trigger] items[i]) == Some(s[i]),
            Err(k) => 0 <= k < n && T::parse(items[k]) is None && forall|i: int|
                0 <= i < k ==> T::parse(#[trigger] items[i]) is Some,
        },
    decreases n,
{
    if n > 0 {
        lemma_parse_prefix::<T>(items, n - 1);
    }
}

/// The member `key` of `tree` read as a `T`, where there may be none.
pub open spec fn optional<T: FromJson>(tree: JsonTree, key: Seq<char>) -> Option<Option<T::V>> {
    match tree.field(key) {
        None => Some(None),
        Some(v) => match T::parse(v) {
            Some(x) => Some(Some(x)),
            None => None,
        },
    }
}

/// The member `key` of `tree` read as a `T`, where there must be one.
pub open spec fn required<T: FromJson>(tree: JsonTree, key: Seq<char>) -> Option<T::V> {
    match tree.field(key) {
        None => None,
        Some(v) => T::parse(v),
    }
}

/// The member `key` of `tree` read as a `T`, or `default` where there is none.
pub open spec fn or_default<T: FromJson>(tree: JsonTree, key: Seq<char>, default: T::V) -> Option<T::V> {
    match tree.field(key) {
        None => Some(default),
        Some(v) => T::parse(v),
    }
}

/// The member `key` of the document `root` read as a list of `T`, where there
/// may be none. An error names `section` and, where an entry is at fault, the
/// first such entry.
pub open spec fn section_of<T: FromJson>(root: JsonTree, key: Seq<char>, section: Section) -> Result<
    Option<Seq<T::V>>,
    ImportError,
> {
    match root.field(key) {
        None => Ok(None),
        Some(v) => match v.items() {
            None => Err(ImportError::MalformedDocument { section, entry: None }),
            Some(items) => match parse_items::<T>(items) {
                Ok(s) => Ok(Some(s)),
                Err(i) => Err(ImportError::MalformedDocument { section, entry: Some(i as usize) }),
            },
        },
    }
}

/// What a result holds, taken by its view.
pub open spec fn outcome<T: DeepView>(r: Result<T, ImportError>) -> Result<T::V, ImportError> {
    match r {
        Ok(x) => Ok(x.deep_view()),
        Err(e) => Err(e),
    }
}

/// Reads every item as a `T`, or tells the place of the first that is none.
pub fn read_items<T: FromJson>(items: &Vec<Json>) -> (r: Result<Vec<T>, usize>)
    ensures
        match r {
            Ok(v) => parse_items::<T>(trees(items@)) == Ok::<Seq<T::V>, int>(v.deep_view()),
            Err(i) => parse_items::<T>(trees(items@)) == Err::<Seq<T::V>, int>(i as int),
        },
{
    let mut out: Vec<T> = Vec::new();
    let mut i: usize = 0;
    assert(out.deep_view() =~= Seq::<T::V>::empty());
    while i < items.len()
        invariant
            i <= items.len(),
            parse_prefix::<T>(trees(items@), i as int) == Ok::<Seq<T::V>, int>(out.deep_view()),
        decreases items.len() - i,
    {
        assert(trees(items@)[i as int] == items@[i as int]@);
        match T::from_json(&items[i]) {
            Some(x) => {
                let ghost before = out.deep_view();
                let ghost added = x.deep_view();
                out.push(x);
                assert(out.deep_view() =~= before.push(added));
            },
            None => {
                proof {
                    lemma_failure_stays::<T>(trees(items@), i + 1, items@.len() as int);
                }
                return Err(i);
            },
        }
        i += 1;
    }
    Ok(out)
}

/// Reads the member `key` as a `T`, where there may be none.
pub fn read_optional<T: FromJson>(json: &Json, key: &str) -> (r: Option<Option<T>>)
    ensures
        r.deep_view() == optional::<T>(json@, key@),
{
    match json.get(key) {
        None => Some(None),
        Some(v) => match T::from_json(v) {
            Some(x) => Some(Some(x)),
            None => None,
        },
    }
}

/// Reads the member `key` as a `T`, where there must be one.
pub fn read_required<T: FromJson>(json: &Json, key: &str) -> (r: Option<T>)
    ensures
        r.deep_view() == required::<T>(json@, key@),
{
    match json.get(key) {
        None => None,
        Some(v) => T::from_json(v),
    }
}

/// Reads the member `key` as a `T`, or takes `default` where there is none.
pub fn read_or<T: FromJson>(json: &Json, key: &str, default: T) -> (r: Option<T>)
    ensures
        r.deep_view() == or_default::<T>(json@, key@, default.deep_view()),
{
    match json.get(key) {
        None => Some(default),
        Some(v) => T::from_json(v),
    }
}

/// Reads the member `key` of a document as a list of `T`, where there may be
/// none.
pub fn read_section<T: FromJson>(root: &Json, key: &str, section: Section) -> (r: Result<
    Option<Vec<T>>,
    ImportError,
>)
    ensures
        outcome(r) == section_of::<T>(root@, key@, section),
{
    match root.get(key) {
        None => Ok(None),
        Some(v) => match v.as_array() {
            None => Err(ImportError::MalformedDocument { section, entry: None }),
            Some(items) => match read_items::<T>(items) {
                Ok(list) => Ok(Some(list)),
                Err(i) => Err(ImportError::MalformedDocument { section, entry: Some(i) }),
            },
        },
    }
}

impl FromJson for i32 {
    /// An integer that fits in 32 bits with a sign.
    open spec fn parse(tree: JsonTree) -> Option<i32> {
        match tree.integer() {
            Some(i) => if i32::MIN <= i <= i32::MAX {
                Some(i as i32)
            } else {
                None
            },
            None => None,
        }
    }

    fn from_json(json: &Json) -> (r: Option<i32>) {
        match json.as_integer() {
            Some(i) => if -2147483648 <= i && i <= 2147483647 {
                Some(i as i32)
            } else {
                None
            },
            None => None,
        }
    }
}

impl FromJson for bool {
    open spec fn parse(tree: JsonTree) -> Option<bool> {
        tree.boolean()
    }

    fn from_json(json: &Json) -> (r: Option<bool>) {
        json.as_boolean()
    }
}

impl FromJson for String {
    open spec fn parse(tree: JsonTree) -> Option<Seq<char>> {
        tree.text()
    }

    fn from_json(json: &Json) -> (r: Option<String>) {
        match json.as_text() {
            Some(s) => Some(s.clone()),
            None => None,
        }
    }
}

impl FromJson for Scalar {
    /// Any number, in double precision.
    open spec fn parse(tree: JsonTree) -> Option<Scalar> {
        match tree.number() {
            Some(bits) => Some(Scalar::Double(bits)),
            None => None,
        }
    }

    fn from_json(json: &Json) -> (r: Option<Scalar>) {
        match json.as_number() {
            Some(bits) => Some(Scalar::Double(bits)),
            None => None,
        }
    }
}

impl<T: FromJson> FromJson for Vec<T> {
    /// An array all of whose elements read as a `T`.
    open spec fn parse(tree: JsonTree) -> Option<Seq<T::V>> {
        match tree.items() {
            Some(items) => match parse_items::<T>(items) {
                Ok(s) => Some(s),
                Err(_) => None,
            },
            None => None,
        }
    }

    fn from_json(json: &Json) -> (r: Option<Vec<T>>) {
        match json.as_array() {
            Some(items) => match read_items::<T>(items) {
                Ok(list) => Some(list),
                Err(_) => None,
            },
            None => None,
        }
    }
}

} // verus!
