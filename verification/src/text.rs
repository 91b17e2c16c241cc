use vstd::prelude::*;

verus! {

/// The Unicode lowercase form of a string, as `str::to_lowercase` computes it.
pub uninterp spec fn unicode_lowercase(s: Seq<char>) -> Seq<char>;

/// Lowercases a string given by its characters with `str::to_lowercase`.
/// The contract only names the result: it is the Unicode lowercase mapping of
/// the characters, a function of them alone, whose tables are not restated
/// here.
#[verifier::external_body]
pub(crate) fn lowercase_chars(chars: &Vec<char>) -> (lower: Vec<char>)
    ensures
        lower@ == unicode_lowercase(chars@),
{
    chars.iter().collect::<String>().to_lowercase().chars().collect()
}

/// The characters of a string slice.
pub(crate) fn str_chars(s: &str) -> (chars: Vec<char>)
    ensures
        chars@ == s@,
{
    broadcast use vstd::string::group_string_axioms;

    let mut chars: Vec<char> = Vec::new();
    let ghost all = s@;
    for c in it: s.chars()
        invariant
            it.seq() == all,
            chars@ == all.take(it.index() as int),
    {
        chars.push(c);
        proof {
            assert(all.take(it.index() as int + 1) == all.take(it.index() as int).push(c));
        }
    }
    chars
}

/// Whether two character sequences are equal.
pub(crate) fn chars_equal(a: &Vec<char>, b: &Vec<char>) -> (equal: bool)
    ensures
        equal == (a@ == b@),
{
    if a.len() != b.len() {
        return false;
    }
    let mut i: usize = 0;
    while i < a.len()
        invariant
            a@.len() == b@.len(),
            i <= a@.len(),
            forall|j: int| 0 <= j < i ==> a@[j] == b@[j],
        decreases a@.len() - i,
    {
        if a[i] != b[i] {
            return false;
        }
        i = i + 1;
    }
    assert(a@ =~= b@);
    true
}

} // verus!
