//! Views and copies of owned text.

use vstd::prelude::*;

verus! {

/// The characters of an optional text.
pub open spec fn opt_text(o: Option<String>) -> Option<Seq<char>> {
    match o {
        Some(s) => Some(s@),
        None => None,
    }
}

/// The characters of each text of a list, in order.
pub open spec fn texts(v: Seq<String>) -> Seq<Seq<char>> {
    v.map_values(|s: String| s@)
}

/// Copies a text.
pub fn copy_text(s: &String) -> (r: String)
    ensures
        r@ == s@,
{
    s.clone()
}

/// Copies an optional text.
pub fn copy_opt_text(o: &Option<String>) -> (r: Option<String>)
    ensures
        opt_text(r) == opt_text(*o),
{
    match o {
        Some(s) => Some(s.clone()),
        None => None,
    }
}

/// Copies a list of texts.
pub fn copy_texts(v: &Vec<String>) -> (r: Vec<String>)
    ensures
        texts(r@) == texts(v@),
{
    let mut out: Vec<String> = Vec::new();
    let mut i: usize = 0;
    while i < v.len()
        invariant
            i <= v.len(),
            out.len() == i,
            forall|j: int| 0 <= j < i ==> out@[j]@ == v@[j]@,
        decreases v.len() - i,
    {
        out.push(v[i].clone());
        i = i + 1;
    }
    assert(texts(out@) =~= texts(v@));
    out
}

/// Whether a list of texts holds the given one.
pub fn holds_text(v: &Vec<String>, wanted: &str) -> (r: bool)
    ensures
        r == texts(v@).contains(wanted@),
{
    let target = wanted.to_owned();
    let mut i: usize = 0;
    while i < v.len()
        invariant
            i <= v.len(),
            target@ == wanted@,
            forall|j: int| 0 <= j < i ==> v@[j]@ != wanted@,
        decreases v.len() - i,
    {
        if v[i] == target {
            assert(texts(v@)[i as int] == wanted@);
            return true;
        }
        i = i + 1;
    }
    assert(!texts(v@).contains(wanted@)) by {
        if texts(v@).contains(wanted@) {
            let j = choose|j: int| 0 <= j < texts(v@).len() && texts(v@)[j] == wanted@;
            assert(v@[j]@ == wanted@);
        }
    }
    false
}

} // verus!
