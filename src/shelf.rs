use rustc_hash::{FxBuildHasher, FxHashMap};
use vstd::prelude::*;

use crate::structs::{Subject, SubjectBooks};

verus! {

#[verifier::external_type_specification]
#[verifier::external_body]
pub struct ExFxBuildHasher(FxBuildHasher);

/// The books of one grade, keyed by subject.
pub type Shelf = FxHashMap<Subject, SubjectBooks>;

/// What a grade's map holds, subject by subject.
pub uninterp spec fn shelf_contents(m: FxHashMap<Subject, SubjectBooks>) -> Map<Subject, SubjectBooks>;

/// Relies on `Default` for `FxHashMap`: a new map holds nothing.
#[verifier::external_body]
pub(crate) fn new_shelf() -> (r: Shelf)
    ensures
        shelf_contents(r).dom() == Set::<Subject>::empty(),
{
    FxHashMap::default()
}

/// Relies on `HashMap::insert`: the key maps to the value afterwards, every
/// other key is unchanged, and the value it had before is returned.
#[verifier::external_body]
pub(crate) fn shelf_insert(m: &mut Shelf, k: Subject, v: SubjectBooks) -> (r: Option<SubjectBooks>)
    ensures
        shelf_contents(*final(m)) == shelf_contents(*old(m)).insert(k, v),
        r == (if shelf_contents(*old(m)).contains_key(k) {
            Some(shelf_contents(*old(m))[k])
        } else {
            None
        }),
{
    m.insert(k, v)
}

/// Relies on `HashMap::get`: the value under the key, if the key is present.
#[verifier::external_body]
pub(crate) fn shelf_get<'a>(m: &'a Shelf, k: &Subject) -> (r: Option<&'a SubjectBooks>)
    ensures
        r.is_some() == shelf_contents(*m).contains_key(*k),
        r.is_some() ==> *r.unwrap() == shelf_contents(*m)[*k],
{
    m.get(k)
}

} // verus!
