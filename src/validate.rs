use vstd::prelude::*;

verus! {

/// The suffix that a file must carry to be sent: a gzip-compressed JSON document.
pub open spec fn accepted_suffix() -> Seq<char> {
    seq!['.', 'j', 's', 'o', 'n', '.', 'g', 'z']
}

/// The code point of a character after ASCII lower-casing; other characters keep their own.
pub open spec fn ascii_lower(c: char) -> u32 {
    if 'A' <= c && c <= 'Z' {
        ((c as u32) + 32) as u32
    } else {
        c as u32
    }
}

/// Two characters that differ at most in ASCII case.
pub open spec fn same_ignoring_case(a: char, b: char) -> bool {
    ascii_lower(a) == ascii_lower(b)
}

/// A name is valid when it ends in `.json.gz`, letters compared without regard to ASCII case.
pub open spec fn valid_name(s: Seq<char>) -> bool {
    let k = accepted_suffix().len();
    &&& s.len() >= k
    &&& forall|i: int|
        0 <= i < k ==> #[trigger] same_ignoring_case(s[s.len() - k + i], accepted_suffix()[i])
}

fn lower_code(c: char) -> (r: u32)
    ensures
        r == ascii_lower(c),
{
    if 'A' <= c && c <= 'Z' {
        (c as u32) + 32
    } else {
        c as u32
    }
}

/// Decides whether `file_name` (a bare name or a whole path) may be sent:
/// it must end in `.json.gz`, in any mix of upper and lower case.
pub fn is_valid_file(file_name: &str) -> (r: bool)
    ensures
        r == valid_name(file_name@),
{
    let suffix = ".json.gz";
    proof {
        reveal_strlit(".json.gz");
    }
    assert(suffix@ == accepted_suffix());
    let n = file_name.unicode_len();
    let k: usize = 8;
    if n < k {
        return false;
    }
    let mut i: usize = 0;
    while i < k
        invariant
            n == file_name@.len(),
            k == accepted_suffix().len(),
            suffix@ == accepted_suffix(),
            n >= k,
            i <= k,
            forall|j: int|
                0 <= j < i ==> #[trigger] same_ignoring_case(
                    file_name@[n - k + j],
                    accepted_suffix()[j],
                ),
        decreases k - i,
    {
        let a = lower_code(file_name.get_char(n - k + i));
        let b = lower_code(suffix.get_char(i));
        if a != b {
            assert(!same_ignoring_case(file_name@[n - k + i as int], accepted_suffix()[i as int]));
            return false;
        }
        i = i + 1;
    }
    true
}

/// A name's validity depends on its letters only up to ASCII case: two names
/// that differ at most in case are both valid or both invalid.
pub proof fn lemma_validity_ignores_case(s: Seq<char>, t: Seq<char>)
    requires
        s.len() == t.len(),
        forall|i: int| 0 <= i < s.len() ==> #[trigger] same_ignoring_case(s[i], t[i]),
    ensures
        valid_name(s) == valid_name(t),
{
    let k = accepted_suffix().len();
    if s.len() >= k {
        assert forall|i: int| 0 <= i < k implies
            (same_ignoring_case(s[s.len() - k + i], accepted_suffix()[i])
            <==> same_ignoring_case(t[t.len() - k + i], accepted_suffix()[i])) by {
            assert(same_ignoring_case(s[s.len() - k + i], t[s.len() - k + i]));
        }
    }
}

} // verus!
