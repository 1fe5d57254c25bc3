//! The check made by the session that tests the notarizer: the metadata that
//! `get_document_meta` returned must equal the metadata expected.
use vstd::prelude::*;
use crate::notarizer::documents::meta_view;

verus! {

/// The user error number with which the check reverts on a mismatch.
pub const META_MISMATCH: u16 = 900;

/// Whether two lists of texts are equal, text by text.
pub fn texts_equal(a: &Vec<String>, b: &Vec<String>) -> (r: bool)
    ensures
        r == (a@.map_values(|s: String| s@) == b@.map_values(|s: String| s@)),
{
    let ghost av = a@.map_values(|s: String| s@);
    let ghost bv = b@.map_values(|s: String| s@);
    if a.len() != b.len() {
        assert(av.len() != bv.len());
        return false;
    }
    let mut i: usize = 0;
    while i < a.len()
        invariant
            a.len() == b.len(),
            i <= a.len(),
            av == a@.map_values(|s: String| s@),
            bv == b@.map_values(|s: String| s@),
            forall|j: int| 0 <= j < i ==> av[j] == bv[j],
        decreases a.len() - i,
    {
        if a[i] != b[i] {
            assert(av[i as int] != bv[i as int]);
            return false;
        }
        i = i + 1;
    }
    assert(av =~= bv);
    true
}

/// Passes where `ret` equals `expected` (both absent, or both lists of the same texts), else
/// fails with `META_MISMATCH`.
pub fn check_document_meta(ret: &Option<Vec<String>>, expected: &Option<Vec<String>>) -> (r: Result<
    (),
    u16,
>)
    ensures
        r is Ok <==> meta_view(*ret) == meta_view(*expected),
        r matches Err(code) ==> code == META_MISMATCH,
{
    let same = match (ret, expected) {
        (Some(a), Some(b)) => texts_equal(a, b),
        (None, None) => true,
        _ => false,
    };
    if same {
        Ok(())
    } else {
        Err(META_MISMATCH)
    }
}

} // verus!
