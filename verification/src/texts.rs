//! Lists of texts.

use vstd::prelude::*;
use vstd::string::StringExecFns;

verus! {

/// The same texts, each in a `String` of its own.
pub fn to_owned_texts(texts: &Vec<&str>) -> (owned: Vec<String>)
    ensures
        owned.deep_view() == texts.deep_view(),
{
    let mut owned: Vec<String> = Vec::new();
    let mut i: usize = 0;
    while i < texts.len()
        invariant
            i <= texts.len(),
            owned.len() == i,
            forall|j: int| 0 <= j < i ==> owned[j]@ == texts[j]@,
        decreases texts.len() - i,
    {
        owned.push(String::from_str(texts[i]));
        i += 1;
    }
    assert(owned.deep_view() =~= texts.deep_view());
    owned
}

/// A copy of the texts.
pub fn clone_texts(texts: &Vec<String>) -> (copy: Vec<String>)
    ensures
        copy.deep_view() == texts.deep_view(),
{
    let mut copy: Vec<String> = Vec::new();
    let mut i: usize = 0;
    while i < texts.len()
        invariant
            i <= texts.len(),
            copy.len() == i,
            forall|j: int| 0 <= j < i ==> copy[j]@ == texts[j]@,
        decreases texts.len() - i,
    {
        copy.push(texts[i].clone());
        i += 1;
    }
    assert(copy.deep_view() =~= texts.deep_view());
    copy
}

} // verus!
