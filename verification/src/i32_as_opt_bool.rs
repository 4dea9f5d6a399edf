//! Flags that may be absent: `null` or nothing stands for no flag, 0 and 1 for a flag.

use vstd::prelude::*;
use crate::codec::optional;
use crate::error::{Error, ErrorView, StepView};
use crate::i32_as_bool;
use crate::json::Members;

verus! {

/// What an optional flag is written as.
pub open spec fn encoded(flag: Option<bool>) -> Option<i32> {
    match flag {
        Some(b) => Some(i32_as_bool::encoded(b)),
        None => None,
    }
}

/// What an optional integer is read as.
pub open spec fn decoded(n: Option<i32>) -> Result<Option<bool>, ErrorView> {
    match n {
        Some(v) => match i32_as_bool::decoded(v) {
            Ok(b) => Ok(Some(b)),
            Err(e) => Err(e),
        },
        None => Ok(None),
    }
}

/// What an optional flag is written as: nothing for no flag, else 1 for `true` and 0 for
/// `false`. It is read back as the same optional flag.
pub fn serialize(opt: &Option<bool>) -> (n: Option<i32>)
    ensures
        n == encoded(*opt),
        decoded(n) == Ok::<Option<bool>, ErrorView>(*opt),
{
    match opt {
        Some(v) => Some(i32_as_bool::serialize(v)),
        None => None,
    }
}

/// What an optional integer is read as: no flag for nothing, `false` for 0, `true` for 1,
/// and for every other integer an error that names it.
pub fn deserialize(n: Option<i32>) -> (r: Result<Option<bool>, Error>)
    ensures
        match (r, decoded(n)) {
            (Ok(x), Ok(m)) => x == m,
            (Err(e), Err(f)) => e@ == f,
            _ => false,
        },
        r matches Ok(x) ==> encoded(x) == n,
{
    match n {
        Some(v) => match i32_as_bool::deserialize(v) {
            Ok(b) => Ok(Some(b)),
            Err(e) => Err(e),
        },
        None => Ok(None),
    }
}

/// In an object, a flag that may be absent is an integer that may be absent, read as an
/// optional flag.
pub proof fn lemma_member(members: Members, key: Seq<char>)
    ensures
        optional::<bool>(members, key) == (match optional::<i32>(members, key) {
            Ok(n) => match decoded(n) {
                Ok(flag) => Ok(flag),
                Err(e) => Err(e.under(StepView::Key(key))),
            },
            Err(e) => Err(e),
        }),
{
}

} // verus!
