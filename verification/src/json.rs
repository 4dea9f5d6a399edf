//! The mathematical model of a JSON document.
//!
//! Every contract of this crate that speaks of a JSON value speaks of a [`Json`], a plain
//! tree of integers, characters and sequences. The members of an object are kept in their
//! order, as they are written on the wire.

use vstd::prelude::*;
use crate::text::decimal;
use crate::value::real_text;

verus! {

/// A JSON number.
pub enum Num {
    /// An integer literal, between `i64::MIN` and `u64::MAX`.
    Int(int),
    /// Any other number, given by the bits of its binary64 value, which is finite.
    Real(u64),
}

/// A JSON value.
pub enum Json {
    Null,
    Bool(bool),
    Number(Num),
    Text(Seq<char>),
    Array(Seq<Json>),
    /// The members of an object, in order. No two members of an object share a key.
    Object(Seq<(Seq<char>, Json)>),
}

impl Num {
    /// The text of the number in a document.
    pub open spec fn text(self) -> Seq<char> {
        match self {
            Num::Int(i) => decimal(i),
            Num::Real(bits) => real_text(bits),
        }
    }

    /// Whether the number is zero: the integer 0, or a real that is 0.0 or -0.0.
    pub open spec fn is_zero(self) -> bool {
        match self {
            Num::Int(i) => i == 0,
            Num::Real(bits) => bits == 0 || bits == 0x8000_0000_0000_0000,
        }
    }
}

/// The members of an object: pairs of a key and a value, in order.
pub type Members = Seq<(Seq<char>, Json)>;

/// The place of the member named `key`, if there is one.
pub open spec fn index_of(members: Members, key: Seq<char>) -> Option<int>
    decreases members.len(),
{
    if members.len() == 0 {
        None
    } else if members.last().0 == key {
        Some(members.len() - 1)
    } else {
        index_of(members.drop_last(), key)
    }
}

/// The value of the member named `key`, if there is one.
#[verifier::opaque]
pub open spec fn lookup(members: Members, key: Seq<char>) -> Option<Json> {
    match index_of(members, key) {
        Some(i) => Some(members[i].1),
        None => None,
    }
}

/// The members after `key` has been given `value`: a member of that name keeps its place
/// and takes the new value, a new member comes last.
#[verifier::opaque]
pub open spec fn insert(members: Members, key: Seq<char>, value: Json) -> Members {
    match index_of(members, key) {
        Some(i) => members.update(i, (key, value)),
        None => members.push((key, value)),
    }
}

/// `index_of` names a member of that key.
pub proof fn lemma_index_of_in_range(members: Members, key: Seq<char>)
    ensures
        index_of(members, key) matches Some(i) ==> 0 <= i < members.len() && members[i].0 == key,
    decreases members.len(),
{
    if members.len() != 0 && members.last().0 != key {
        lemma_index_of_in_range(members.drop_last(), key);
    }
}

/// Giving a member a new value changes the place of no member.
proof fn lemma_index_of_update(members: Members, i: int, value: Json, key: Seq<char>)
    requires
        0 <= i < members.len(),
    ensures
        index_of(members.update(i, (members[i].0, value)), key) == index_of(members, key),
    decreases members.len(),
{
    let after = members.update(i, (members[i].0, value));
    if members.last().0 != key {
        if i == members.len() - 1 {
            assert(after.drop_last() =~= members.drop_last());
        } else {
            assert(after.drop_last() =~= members.drop_last().update(
                i,
                (members.drop_last()[i].0, value),
            ));
            lemma_index_of_update(members.drop_last(), i, value, key);
        }
    }
}

/// A member of a new name comes last.
pub proof fn lemma_insert_fresh(members: Members, key: Seq<char>, value: Json)
    requires
        forall|i: int| 0 <= i < members.len() ==> (#[trigger] members[i]).0 != key,
    ensures
        insert(members, key, value) == members.push((key, value)),
{
    reveal(insert);
    lemma_index_of_in_range(members, key);
}

/// An object without members has no member of any name.
pub proof fn lemma_lookup_empty(key: Seq<char>)
    ensures
        lookup(Seq::empty(), key) is None,
{
    reveal(lookup);
}

/// What `lookup` finds after an `insert`: the new value under the inserted key, and under
/// every other key what was there before.
pub proof fn lemma_lookup_insert(members: Members, key: Seq<char>, value: Json, other: Seq<char>)
    ensures
        lookup(insert(members, key, value), other) == if other == key {
            Some(value)
        } else {
            lookup(members, other)
        },
{
    reveal(lookup);
    reveal(insert);
    lemma_index_of_in_range(members, key);
    lemma_index_of_in_range(members, other);
    match index_of(members, key) {
        Some(i) => {
            lemma_index_of_update(members, i, value, other);
        },
        None => {
            assert(members.push((key, value)).drop_last() =~= members);
        },
    }
}

} // verus!
