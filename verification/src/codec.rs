//! Encoding and decoding, one type at a time.
//!
//! A type that can stand in a document implements [`Codec`]: it says, as spec functions
//! over the model of JSON, what it is encoded to and what is decoded from a value, and it
//! has the two executable functions that do so on `serde_json::Value`. The functions of
//! this module read and write the members of an object with them.

use vstd::prelude::*;
use serde_json::{Number, Value};
use crate::error::{Error, ErrorView, Step, StepView};
use crate::json::{Json, Num, Members, lookup, insert, lemma_lookup_insert};
use crate::value::{
    json_of, members_of, number_of, items_of, map_get, map_insert, number_bits, number_zero,
    parse, parsed, print, printed, value_from_i64,
    value_from_number, value_from_string, value_from_vec, value_from_map,
};

verus! {

/// A type with a place in a JSON document.
pub trait Codec: Sized {
    /// The mathematical value that a value of this type stands for.
    type Model;

    /// The value that `self` stands for.
    spec fn model(&self) -> Self::Model;

    /// The values that are read back as they are: each part keeps to its domain, and no
    /// deprecated field is set. To encode a value that breaks a domain breaks the caller's
    /// side of the contract: it is encoded as it stands, and does not decode to itself.
    spec fn valid(m: Self::Model) -> bool;

    /// Whether no deprecated field is set in the value, at any depth. A deprecated field
    /// is read from a document and never written to one.
    spec fn current(m: Self::Model) -> bool;

    /// The JSON value that `m` is encoded to.
    spec fn encoded(m: Self::Model) -> Json;

    /// What decoding `json` yields: a value, or the error for the first thing in `json`
    /// that is not accepted.
    spec fn decoded(json: Json) -> Result<Self::Model, ErrorView>;

    /// Encodes `self`.
    fn to_value(&self) -> (value: Value)
        ensures
            json_of(value) == Self::encoded(self.model()),
    ;

    /// Decodes `value`.
    fn from_value(value: &Value) -> (r: Result<Self, Error>)
        ensures
            match (r, Self::decoded(json_of(*value))) {
                (Ok(x), Ok(m)) => x.model() == m,
                (Err(e), Err(f)) => e@ == f,
                _ => false,
            },
    ;

    /// Decoding what a valid value was encoded to yields that value again. No value is
    /// encoded to `null`, which stands for an absent member.
    proof fn round_trip(m: Self::Model)
        requires
            Self::valid(m),
        ensures
            Self::decoded(Self::encoded(m)) == Ok::<Self::Model, ErrorView>(m),
            !(Self::encoded(m) is Null),
    ;

    /// Decoding yields valid values only, but for the deprecated fields that it reads.
    proof fn decoded_valid(json: Json)
        ensures
            Self::decoded(json) matches Ok(m) ==> (Self::current(m) ==> Self::valid(m)),
    ;
}

/// What decoding a text yields: what decoding the document yields that the text holds,
/// or the error for a text that holds none.
pub open spec fn decoded_text<T: Codec>(text: Seq<char>) -> Result<T::Model, ErrorView> {
    match parsed(text) {
        Some(json) => T::decoded(json),
        None => Err(ErrorView::no_document(text)),
    }
}

/// The text that a value is encoded to.
pub open spec fn encoded_text<T: Codec>(m: T::Model) -> Seq<char> {
    printed(T::encoded(m))
}

/// Decodes the document that a text holds.
pub fn from_str<T: Codec>(text: &str) -> (r: Result<T, Error>)
    ensures
        agree::<T>(r, decoded_text::<T>(text@)),
{
    match parse(text) {
        Some(value) => T::from_value(&value),
        None => Err(Error::no_document(text)),
    }
}

/// Encodes a value as the text of a document, without white space.
pub fn to_string<T: Codec>(x: &T) -> (text: String)
    ensures
        text@ == encoded_text::<T>(x.model()),
{
    print(&x.to_value())
}

/// Encoding is stable: a document that a valid value is encoded to is decoded to a value
/// that is encoded to the same document.
pub proof fn encoding_is_stable<T: Codec>(m: T::Model)
    requires
        T::valid(m),
    ensures
        T::decoded(T::encoded(m)) matches Ok(x) && T::encoded(x) == T::encoded(m),
{
    T::round_trip(m);
}

/// Decoding is stable: a document without deprecated members is decoded to a value whose
/// encoding is decoded to the same value.
pub proof fn decoding_is_stable<T: Codec>(json: Json)
    requires
        T::decoded(json) matches Ok(m) && T::current(m),
    ensures
        T::decoded(json) matches Ok(m) && T::decoded(T::encoded(m)) == T::decoded(json),
{
    T::decoded_valid(json);
    T::round_trip(T::decoded(json)->Ok_0);
}

/// Whether what an executable decoder returned is what the model says.
pub open spec fn agree<T: Codec>(r: Result<T, Error>, s: Result<T::Model, ErrorView>) -> bool {
    match (r, s) {
        (Ok(x), Ok(m)) => x.model() == m,
        (Err(e), Err(f)) => e@ == f,
        _ => false,
    }
}

/// The value that an optional value stands for.
pub open spec fn model_of_option<T: Codec>(x: Option<T>) -> Option<T::Model> {
    match x {
        Some(v) => Some(v.model()),
        None => None,
    }
}

/// As [`agree`], for a member that may be absent.
pub open spec fn agree_option<T: Codec>(
    r: Result<Option<T>, Error>,
    s: Result<Option<T::Model>, ErrorView>,
) -> bool {
    match (r, s) {
        (Ok(x), Ok(m)) => model_of_option(x) == m,
        (Err(e), Err(f)) => e@ == f,
        _ => false,
    }
}

/// Whether an optional value is valid.
pub open spec fn valid_option<T: Codec>(x: Option<T::Model>) -> bool {
    x matches Some(v) ==> T::valid(v)
}

/// Whether no deprecated field is set in an optional value.
pub open spec fn current_option<T: Codec>(x: Option<T::Model>) -> bool {
    x matches Some(v) ==> T::current(v)
}

/// The words of the error for an absent member.
pub open spec fn a_member() -> Seq<char> {
    "a member of this name"@
}

/// What decoding yields for a member that must be present.
pub open spec fn required<T: Codec>(members: Members, key: Seq<char>) -> Result<
    T::Model,
    ErrorView,
> {
    match lookup(members, key) {
        None => Err(ErrorView::absent(a_member()).under(StepView::Key(key))),
        Some(json) => match T::decoded(json) {
            Ok(m) => Ok(m),
            Err(e) => Err(e.under(StepView::Key(key))),
        },
    }
}

/// What decoding yields for a member that may be absent or `null`.
pub open spec fn optional<T: Codec>(members: Members, key: Seq<char>) -> Result<
    Option<T::Model>,
    ErrorView,
> {
    match lookup(members, key) {
        None => Ok(None),
        Some(Json::Null) => Ok(None),
        Some(json) => match T::decoded(json) {
            Ok(m) => Ok(Some(m)),
            Err(e) => Err(e.under(StepView::Key(key))),
        },
    }
}

/// What decoding yields for a member that stands for `default` when it is absent.
pub open spec fn defaulted<T: Codec>(members: Members, key: Seq<char>, default: T::Model) -> Result<
    T::Model,
    ErrorView,
> {
    match lookup(members, key) {
        None => Ok(default),
        Some(json) => match T::decoded(json) {
            Ok(m) => Ok(m),
            Err(e) => Err(e.under(StepView::Key(key))),
        },
    }
}

/// The members after a member that is always written.
#[verifier::opaque]
pub open spec fn with<T: Codec>(members: Members, key: Seq<char>, m: T::Model) -> Members {
    insert(members, key, T::encoded(m))
}

/// The members after a member that is written when it is present.
#[verifier::opaque]
pub open spec fn with_some<T: Codec>(members: Members, key: Seq<char>, m: Option<
    T::Model,
>) -> Members {
    match m {
        Some(v) => insert(members, key, T::encoded(v)),
        None => members,
    }
}

/// The members after a member that is written unless it has its default value.
#[verifier::opaque]
pub open spec fn with_unless<T: Codec>(
    members: Members,
    key: Seq<char>,
    m: T::Model,
    skip: bool,
) -> Members {
    if skip {
        members
    } else {
        insert(members, key, T::encoded(m))
    }
}

/// What is written for a member that may be absent: its encoding, or nothing.
pub open spec fn written<T: Codec>(m: Option<T::Model>) -> Option<Json> {
    match m {
        Some(v) => Some(T::encoded(v)),
        None => None,
    }
}

/// What is written for a member that is left out when `skip` holds.
pub open spec fn written_unless<T: Codec>(m: T::Model, skip: bool) -> Option<Json> {
    if skip {
        None
    } else {
        Some(T::encoded(m))
    }
}

/// Reads a member that must be present.
pub fn get<T: Codec>(map: &serde_json::Map<String, Value>, key: &'static str) -> (r: Result<
    T,
    Error,
>)
    ensures
        agree::<T>(r, required::<T>(members_of(*map), key@)),
{
    match map_get(map, key) {
        None => Err(Error::absent("a member of this name").under(Step::Key(key))),
        Some(value) => match T::from_value(value) {
            Ok(x) => Ok(x),
            Err(e) => Err(e.under(Step::Key(key))),
        },
    }
}

/// Reads a member that may be absent or `null`.
pub fn get_option<T: Codec>(map: &serde_json::Map<String, Value>, key: &'static str) -> (r:
    Result<Option<T>, Error>)
    ensures
        agree_option::<T>(r, optional::<T>(members_of(*map), key@)),
{
    match map_get(map, key) {
        None => Ok(None),
        Some(value) => {
            if value.is_null() {
                Ok(None)
            } else {
                match T::from_value(value) {
                    Ok(x) => Ok(Some(x)),
                    Err(e) => Err(e.under(Step::Key(key))),
                }
            }
        },
    }
}

/// Reads a member that stands for `default` when it is absent.
pub fn get_or<T: Codec>(
    map: &serde_json::Map<String, Value>,
    key: &'static str,
    default: T,
) -> (r: Result<T, Error>)
    ensures
        agree::<T>(r, defaulted::<T>(members_of(*map), key@, default.model())),
{
    match map_get(map, key) {
        None => Ok(default),
        Some(value) => match T::from_value(value) {
            Ok(x) => Ok(x),
            Err(e) => Err(e.under(Step::Key(key))),
        },
    }
}

/// Writes a member that is always written.
pub fn put<T: Codec>(map: &mut serde_json::Map<String, Value>, key: &'static str, x: &T)
    ensures
        members_of(*final(map)) == with::<T>(members_of(*old(map)), key@, x.model()),
{
    reveal(with);
    map_insert(map, key.to_owned(), x.to_value());
}

/// Writes a member when it is present.
pub fn put_some<T: Codec>(
    map: &mut serde_json::Map<String, Value>,
    key: &'static str,
    x: &Option<T>,
)
    ensures
        members_of(*final(map)) == with_some::<T>(
            members_of(*old(map)),
            key@,
            model_of_option(*x),
        ),
{
    reveal(with_some);
    match x {
        Some(v) => {
            map_insert(map, key.to_owned(), v.to_value());
        },
        None => {},
    }
}

/// Writes a member unless `skip` says that it has its default value.
pub fn put_unless<T: Codec>(
    map: &mut serde_json::Map<String, Value>,
    key: &'static str,
    x: &T,
    skip: bool,
)
    ensures
        members_of(*final(map)) == with_unless::<T>(
            members_of(*old(map)),
            key@,
            x.model(),
            skip,
        ),
{
    reveal(with_unless);
    if !skip {
        map_insert(map, key.to_owned(), x.to_value());
    }
}

/// Whether a text is the given one.
pub fn text_is(text: &String, other: &'static str) -> (r: bool)
    ensures
        r == (text@ == other@),
{
    let other = other.to_owned();
    *text == other
}

/// What `lookup` finds after [`with`].
pub broadcast proof fn lemma_lookup_with<T: Codec>(
    members: Members,
    key: Seq<char>,
    m: T::Model,
    other: Seq<char>,
)
    ensures
        #[trigger] lookup(with::<T>(members, key, m), other) == if other == key {
            Some(T::encoded(m))
        } else {
            lookup(members, other)
        },
{
    reveal(with);
    lemma_lookup_insert(members, key, T::encoded(m), other);
}

/// What `lookup` finds after [`with_some`].
pub broadcast proof fn lemma_lookup_with_some<T: Codec>(
    members: Members,
    key: Seq<char>,
    m: Option<T::Model>,
    other: Seq<char>,
)
    ensures
        #[trigger] lookup(with_some::<T>(members, key, m), other) == if other == key && m is Some {
            Some(T::encoded(m->Some_0))
        } else {
            lookup(members, other)
        },
{
    reveal(with_some);
    if m is Some {
        lemma_lookup_insert(members, key, T::encoded(m->Some_0), other);
    }
}

/// What `lookup` finds after [`with_unless`].
pub broadcast proof fn lemma_lookup_with_unless<T: Codec>(
    members: Members,
    key: Seq<char>,
    m: T::Model,
    skip: bool,
    other: Seq<char>,
)
    ensures
        #[trigger] lookup(with_unless::<T>(members, key, m, skip), other) == if other == key
            && !skip {
            Some(T::encoded(m))
        } else {
            lookup(members, other)
        },
{
    reveal(with_unless);
    if !skip {
        lemma_lookup_insert(members, key, T::encoded(m), other);
    }
}

/// A member that was written is read again.
pub proof fn lemma_required<T: Codec>(members: Members, key: Seq<char>, m: T::Model)
    requires
        T::valid(m),
        lookup(members, key) == Some(T::encoded(m)),
    ensures
        required::<T>(members, key) == Ok::<T::Model, ErrorView>(m),
{
    T::round_trip(m);
}

/// A member that was written when it was present is read again, present or absent.
pub proof fn lemma_optional<T: Codec>(members: Members, key: Seq<char>, m: Option<T::Model>)
    requires
        valid_option::<T>(m),
        lookup(members, key) == written::<T>(m),
    ensures
        optional::<T>(members, key) == Ok::<Option<T::Model>, ErrorView>(m),
{
    if m is Some {
        T::round_trip(m->Some_0);
    }
}

/// A member that was written unless it had its default value is read again.
pub proof fn lemma_defaulted<T: Codec>(
    members: Members,
    key: Seq<char>,
    m: T::Model,
    default: T::Model,
)
    requires
        T::valid(m),
        lookup(members, key) == written_unless::<T>(m, m == default),
    ensures
        defaulted::<T>(members, key, default) == Ok::<T::Model, ErrorView>(m),
{
    T::round_trip(m);
}

/// A member that must be present is read as a valid value, unless a deprecated field is
/// set in it.
pub proof fn lemma_required_valid<T: Codec>(members: Members, key: Seq<char>)
    ensures
        required::<T>(members, key) matches Ok(m) ==> (T::current(m) ==> T::valid(m)),
{
    if let Some(json) = lookup(members, key) {
        T::decoded_valid(json);
    }
}

/// A member that may be absent is read as a valid value, unless a deprecated field is set
/// in it.
pub proof fn lemma_optional_valid<T: Codec>(members: Members, key: Seq<char>)
    ensures
        optional::<T>(members, key) matches Ok(m) ==> (current_option::<T>(m) ==> valid_option::<
            T,
        >(m)),
{
    if let Some(json) = lookup(members, key) {
        T::decoded_valid(json);
    }
}

/// A member with a valid default is read as a valid value, unless a deprecated field is
/// set in it.
pub proof fn lemma_defaulted_valid<T: Codec>(members: Members, key: Seq<char>, default: T::Model)
    requires
        T::valid(default),
    ensures
        defaulted::<T>(members, key, default) matches Ok(m) ==> (T::current(m) ==> T::valid(m)),
{
    if let Some(json) = lookup(members, key) {
        T::decoded_valid(json);
    }
}

/// What decoding yields for a member that holds an amount and stands for zero when it is
/// absent: the number as it is written, but 0.0 for every way of writing zero.
pub open spec fn amount(members: Members, key: Seq<char>) -> Result<Num, ErrorView> {
    match defaulted::<Number>(members, key, Num::Real(0)) {
        Ok(n) => Ok(
            if n.is_zero() {
                Num::Real(0)
            } else {
                n
            },
        ),
        Err(e) => Err(e),
    }
}

/// Whether an amount is written in the one way in which it is read: zero is 0.0.
pub open spec fn plain_amount(n: Num) -> bool {
    n.is_zero() ==> n == Num::Real(0)
}

/// The members after an amount, which is not written when it is zero.
pub open spec fn with_amount(members: Members, key: Seq<char>, n: Num) -> Members {
    with_unless::<Number>(members, key, n, n.is_zero())
}

/// Whether a number is zero: the integer 0, or a float whose bits are those of 0.0 or of
/// -0.0.
fn number_is_zero(number: &Number) -> (r: bool)
    ensures
        r == number_of(*number).is_zero(),
{
    if number.is_f64() {
        match number_bits(number) {
            Some(bits) => bits == 0 || bits == 0x8000_0000_0000_0000,
            None => false,
        }
    } else {
        match number.as_i64() {
            Some(i) => i == 0,
            None => false,
        }
    }
}

/// Reads an amount.
pub fn get_amount(map: &serde_json::Map<String, Value>, key: &'static str) -> (r: Result<
    Number,
    Error,
>)
    ensures
        agree::<Number>(r, amount(members_of(*map), key@)),
{
    match get_or::<Number>(map, key, number_zero()) {
        Ok(n) => if number_is_zero(&n) {
            Ok(number_zero())
        } else {
            Ok(n)
        },
        Err(e) => Err(e),
    }
}

/// Writes an amount.
pub fn put_amount(map: &mut serde_json::Map<String, Value>, key: &'static str, n: &Number)
    ensures
        members_of(*final(map)) == with_amount(members_of(*old(map)), key@, number_of(*n)),
{
    put_unless::<Number>(map, key, n, number_is_zero(n));
}

/// An amount that was written is read again.
pub proof fn lemma_amount(members: Members, key: Seq<char>, n: Num)
    requires
        plain_amount(n),
        lookup(members, key) == written_unless::<Number>(n, n.is_zero()),
    ensures
        amount(members, key) == Ok::<Num, ErrorView>(n),
{
}

impl Codec for i32 {
    type Model = i32;

    open spec fn model(&self) -> i32 {
        *self
    }

    open spec fn valid(m: i32) -> bool {
        true
    }

    open spec fn current(m: i32) -> bool {
        true
    }

    open spec fn encoded(m: i32) -> Json {
        Json::Number(Num::Int(m as int))
    }

    open spec fn decoded(json: Json) -> Result<i32, ErrorView> {
        match json {
            Json::Number(Num::Int(i)) if i64::MIN <= i <= i64::MAX => {
                if i32::MIN <= i <= i32::MAX {
                    Ok(i as i32)
                } else {
                    Err(ErrorView::domain(i as i64, "an integer of 32 bits"@))
                }
            },
            _ => Err(ErrorView::shape(json, "an integer"@)),
        }
    }

    fn to_value(&self) -> (value: Value) {
        value_from_i64(*self as i64)
    }

    fn from_value(value: &Value) -> (r: Result<i32, Error>) {
        match value.as_i64() {
            Some(i) => {
                if i32::MIN as i64 <= i && i <= i32::MAX as i64 {
                    Ok(i as i32)
                } else {
                    Err(Error::domain(i, "an integer of 32 bits"))
                }
            },
            None => Err(Error::shape(value, "an integer")),
        }
    }

    proof fn round_trip(m: i32) {
    }

    proof fn decoded_valid(json: Json) {
    }

}

impl Codec for String {
    type Model = Seq<char>;

    open spec fn model(&self) -> Seq<char> {
        self@
    }

    open spec fn valid(m: Seq<char>) -> bool {
        true
    }

    open spec fn current(m: Seq<char>) -> bool {
        true
    }

    open spec fn encoded(m: Seq<char>) -> Json {
        Json::Text(m)
    }

    open spec fn decoded(json: Json) -> Result<Seq<char>, ErrorView> {
        match json {
            Json::Text(t) => Ok(t),
            _ => Err(ErrorView::shape(json, "a string"@)),
        }
    }

    fn to_value(&self) -> (value: Value) {
        value_from_string(self.clone())
    }

    fn from_value(value: &Value) -> (r: Result<String, Error>) {
        match value.as_str() {
            Some(t) => Ok(t.to_owned()),
            None => Err(Error::shape(value, "a string")),
        }
    }

    proof fn round_trip(m: Seq<char>) {
    }

    proof fn decoded_valid(json: Json) {
    }

}

/// A number is carried as it is written: an integer stays an integer.
impl Codec for Number {
    type Model = Num;

    open spec fn model(&self) -> Num {
        number_of(*self)
    }

    open spec fn valid(m: Num) -> bool {
        true
    }

    open spec fn current(m: Num) -> bool {
        true
    }

    open spec fn encoded(m: Num) -> Json {
        Json::Number(m)
    }

    open spec fn decoded(json: Json) -> Result<Num, ErrorView> {
        match json {
            Json::Number(n) => Ok(n),
            _ => Err(ErrorView::shape(json, "a number"@)),
        }
    }

    fn to_value(&self) -> (value: Value) {
        value_from_number(self.clone())
    }

    fn from_value(value: &Value) -> (r: Result<Number, Error>) {
        match value.as_number() {
            Some(n) => Ok(n.clone()),
            None => Err(Error::shape(value, "a number")),
        }
    }

    proof fn round_trip(m: Num) {
    }

    proof fn decoded_valid(json: Json) {
    }

}

/// An object of extensions is carried with every member it holds, in their order. What is
/// carried is the value of each member: a number keeps its value and not its spelling, and
/// of a key that the text holds twice the last value stands.
impl Codec for serde_json::Map<String, Value> {
    type Model = Members;

    open spec fn model(&self) -> Members {
        members_of(*self)
    }

    open spec fn valid(m: Members) -> bool {
        true
    }

    open spec fn current(m: Members) -> bool {
        true
    }

    open spec fn encoded(m: Members) -> Json {
        Json::Object(m)
    }

    open spec fn decoded(json: Json) -> Result<Members, ErrorView> {
        match json {
            Json::Object(members) => Ok(members),
            _ => Err(ErrorView::shape(json, "an object"@)),
        }
    }

    fn to_value(&self) -> (value: Value) {
        value_from_map(self.clone())
    }

    fn from_value(value: &Value) -> (r: Result<serde_json::Map<String, Value>, Error>) {
        match value.as_object() {
            Some(map) => Ok(map.clone()),
            None => Err(Error::shape(value, "an object")),
        }
    }

    proof fn round_trip(m: Members) {
    }

    proof fn decoded_valid(json: Json) {
    }

}

/// What decoding the items of an array yields: the values of all of them, or the error
/// of the first that is not accepted.
pub open spec fn decoded_items<T: Codec>(items: Seq<Json>) -> Result<Seq<T::Model>, ErrorView>
    decreases items.len(),
{
    if items.len() == 0 {
        Ok(Seq::empty())
    } else {
        match decoded_items::<T>(items.drop_last()) {
            Err(e) => Err(e),
            Ok(ms) => match T::decoded(items.last()) {
                Ok(m) => Ok(ms.push(m)),
                Err(e) => Err(e.under(StepView::Index((items.len() - 1) as nat))),
            },
        }
    }
}

/// The items that a sequence of values is encoded to.
pub open spec fn encoded_items<T: Codec>(ms: Seq<T::Model>) -> Seq<Json> {
    Seq::new(ms.len(), |i: int| T::encoded(ms[i]))
}

/// An error among the first items is the error of the whole array.
pub proof fn lemma_decoded_items_error<T: Codec>(items: Seq<Json>, n: int)
    requires
        0 <= n <= items.len(),
        decoded_items::<T>(items.take(n)) is Err,
    ensures
        decoded_items::<T>(items) == decoded_items::<T>(items.take(n)),
    decreases items.len(),
{
    if n == items.len() {
        assert(items.take(n) =~= items);
    } else {
        assert(items.drop_last().take(n) =~= items.take(n));
        lemma_decoded_items_error::<T>(items.drop_last(), n);
    }
}

/// Decoding the items that valid values were encoded to yields these values.
pub proof fn lemma_items_round_trip<T: Codec>(ms: Seq<T::Model>)
    requires
        forall|i: int| 0 <= i < ms.len() ==> T::valid(#[trigger] ms[i]),
    ensures
        decoded_items::<T>(encoded_items::<T>(ms)) == Ok::<Seq<T::Model>, ErrorView>(ms),
    decreases ms.len(),
{
    let items = encoded_items::<T>(ms);
    if ms.len() == 0 {
        assert(ms =~= Seq::empty());
    } else {
        assert(items.drop_last() =~= encoded_items::<T>(ms.drop_last()));
        lemma_items_round_trip::<T>(ms.drop_last());
        T::round_trip(ms.last());
        assert(ms.drop_last().push(ms.last()) =~= ms);
    }
}

/// Decoding items yields as many values, each of them valid unless a deprecated field is
/// set in it.
pub proof fn lemma_decoded_items_valid<T: Codec>(items: Seq<Json>)
    ensures
        decoded_items::<T>(items) matches Ok(ms) ==> ms.len() == items.len() && forall|i: int|
            0 <= i < ms.len() ==> (T::current(#[trigger] ms[i]) ==> T::valid(ms[i])),
    decreases items.len(),
{
    if items.len() != 0 {
        lemma_decoded_items_valid::<T>(items.drop_last());
        T::decoded_valid(items.last());
    }
}

impl<T: Codec> Codec for Vec<T> {
    type Model = Seq<T::Model>;

    open spec fn model(&self) -> Seq<T::Model> {
        Seq::new(self@.len(), |i: int| self@[i].model())
    }

    open spec fn valid(m: Seq<T::Model>) -> bool {
        forall|i: int| 0 <= i < m.len() ==> T::valid(#[trigger] m[i])
    }

    open spec fn current(m: Seq<T::Model>) -> bool {
        forall|i: int| 0 <= i < m.len() ==> T::current(#[trigger] m[i])
    }

    open spec fn encoded(m: Seq<T::Model>) -> Json {
        Json::Array(encoded_items::<T>(m))
    }

    open spec fn decoded(json: Json) -> Result<Seq<T::Model>, ErrorView> {
        match json {
            Json::Array(items) => decoded_items::<T>(items),
            _ => Err(ErrorView::shape(json, "an array"@)),
        }
    }

    fn to_value(&self) -> (value: Value) {
        let mut values: Vec<Value> = Vec::new();
        let mut i: usize = 0;
        while i < self.len()
            invariant
                i <= self.len(),
                values@.len() == i,
                forall|j: int|
                    0 <= j < i ==> json_of(#[trigger] values@[j]) == T::encoded(self@[j].model()),
            decreases self.len() - i,
        {
            values.push(self[i].to_value());
            i += 1;
        }
        assert(items_of(values@) =~= encoded_items::<T>(self.model()));
        value_from_vec(values)
    }

    fn from_value(value: &Value) -> (r: Result<Vec<T>, Error>) {
        match value.as_array() {
            None => Err(Error::shape(value, "an array")),
            Some(values) => {
                let ghost items = items_of(values@);
                let mut out: Vec<T> = Vec::new();
                let mut i: usize = 0;
                assert(items.take(0) =~= Seq::empty());
                assert(out.model() =~= Seq::empty());
                while i < values.len()
                    invariant
                        i <= values.len(),
                        items == items_of(values@),
                        json_of(*value) == Json::Array(items),
                        decoded_items::<T>(items.take(i as int)) == Ok::<Seq<T::Model>, ErrorView>(
                            out.model(),
                        ),
                    decreases values.len() - i,
                {
                    assert(items.take(i + 1).drop_last() =~= items.take(i as int));
                    assert(items.take(i + 1).last() == json_of(values@[i as int]));
                    match T::from_value(&values[i]) {
                        Ok(x) => {
                            let ghost before = out.model();
                            out.push(x);
                            assert(out.model() =~= before.push(x.model()));
                        },
                        Err(e) => {
                            proof {
                                lemma_decoded_items_error::<T>(items, i + 1);
                            }
                            return Err(e.under(Step::Index(i)));
                        },
                    }
                    i += 1;
                }
                assert(items.take(i as int) =~= items);
                Ok(out)
            },
        }
    }

    proof fn round_trip(m: Seq<T::Model>) {
        lemma_items_round_trip::<T>(m);
    }

    proof fn decoded_valid(json: Json) {
        if let Json::Array(items) = json {
            lemma_decoded_items_valid::<T>(items);
        }
    }

}

} // verus!
