use vstd::prelude::*;
use vstd::string::{StrSliceExecFns, StringExecFns};

verus! {

/// What `str::to_lowercase` returns for a string of these characters.
pub uninterp spec fn lower_of(s: Seq<char>) -> Seq<char>;

/// Relies on `str::to_lowercase`: the result depends on the characters
/// alone, and the empty string stays empty.
#[verifier::external_body]
fn lowercase(s: &str) -> (r: String)
    ensures
        r@ == lower_of(s@),
        s@.len() == 0 ==> r@.len() == 0,
{
    s.to_lowercase()
}

/// Index of the first newline in `s`, if any.
pub open spec fn first_newline(s: Seq<char>) -> Option<int> {
    if exists|i: int| 0 <= i < s.len() && s[i] == '\n' {
        Some(choose|i: int| 0 <= i < s.len() && s[i] == '\n' && forall|j: int| 0 <= j < i ==> s[j] != '\n')
    } else {
        None
    }
}

/// The first line of `s`: everything before the first newline, without a
/// carriage return that directly precedes it; all of `s` when it has no newline.
pub open spec fn spec_first_line(s: Seq<char>) -> Seq<char> {
    match first_newline(s) {
        Some(k) => if k > 0 && s[k - 1] == '\r' {
            s.subrange(0, k - 1)
        } else {
            s.subrange(0, k)
        },
        None => s,
    }
}

/// An answer, already lowercased, grants consent when it is a non-empty
/// prefix of "yes"; anything else, "no" and its prefixes included, denies it.
pub open spec fn spec_consents(folded: Seq<char>) -> bool {
    folded.len() > 0 && folded.is_prefix_of(seq!['y', 'e', 's'])
}

/// The first line of what was read, as the answer to the consent prompt.
pub fn first_line(s: &str) -> (r: String)
    ensures
        r@ == spec_first_line(s@),
{
    let n = s.unicode_len();
    let mut i: usize = 0;
    while i < n && s.get_char(i) != '\n'
        invariant
            n == s@.len(),
            i <= n,
            forall|j: int| 0 <= j < i ==> s@[j] != '\n',
        decreases n - i,
    {
        i = i + 1;
    }
    if i == n {
        assert(!(exists|j: int| 0 <= j < s@.len() && s@[j] == '\n'));
        return String::from_str(s);
    }
    assert(s@[i as int] == '\n');
    proof {
        let k = choose|k: int|
            0 <= k < s@.len() && s@[k] == '\n' && forall|j: int| 0 <= j < k ==> s@[j] != '\n';
        assert(k == i);
    }
    let end: usize = if i > 0 && s.get_char(i - 1) == '\r' { i - 1 } else { i };
    String::from_str(s.substring_char(0, end))
}

/// Whether an already lowercased answer grants consent.
pub fn consents_folded(folded: &str) -> (r: bool)
    ensures
        r == spec_consents(folded@),
{
    let n = folded.unicode_len();
    if n == 0 || n > 3 {
        return false;
    }
    let ok = folded.get_char(0) == 'y' && (n < 2 || folded.get_char(1) == 'e') && (n < 3
        || folded.get_char(2) == 's');
    proof {
        let y = seq!['y', 'e', 's'];
        if ok {
            assert(folded@ =~= y.subrange(0, n as int));
        } else {
            if folded@.is_prefix_of(y) {
                assert(folded@[0] == y[0]);
                if n >= 2 {
                    assert(folded@[1] == y[1]);
                }
                if n >= 3 {
                    assert(folded@[2] == y[2]);
                }
            }
        }
    }
    ok
}

/// Whether a line typed at the consent prompt grants consent: only its
/// first line counts, case does not matter, and it must be a non-empty
/// prefix of "yes".
pub fn parse_consent(input: &str) -> (r: bool)
    ensures
        r == spec_consents(lower_of(spec_first_line(input@))),
{
    let line = first_line(input);
    let folded = lowercase(line.as_str());
    consents_folded(folded.as_str())
}

/// The decision a preset preference makes: granted only by exactly "true",
/// denied by any other value, and no decision when it is absent.
pub fn consent_override(preference: Option<&str>) -> (r: Option<bool>)
    ensures
        r == match preference {
            Some(v) => Some(v@ == seq!['t', 'r', 'u', 'e']),
            None => None::<bool>,
        },
{
    match preference {
        Some(v) => {
            let n = v.unicode_len();
            let t = n == 4 && v.get_char(0) == 't' && v.get_char(1) == 'r' && v.get_char(2) == 'u'
                && v.get_char(3) == 'e';
            proof {
                if t {
                    assert(v@ =~= seq!['t', 'r', 'u', 'e']);
                }
            }
            Some(t)
        },
        None => None,
    }
}

} // verus!
