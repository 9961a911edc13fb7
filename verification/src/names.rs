//! Names and paths that the harness derives for an example under test.
//!
//! A component name is the example's name with a fixed suffix; the component
//! path joins the target directory and the component name; a package name is
//! accepted by the template library exactly when it consists of two parts
//! separated by a single `':'`.

use vstd::prelude::*;

verus! {

/// Number of occurrences of the character `c` in `s`.
pub open spec fn occurrences(s: Seq<char>, c: char) -> nat
    decreases s.len(),
{
    if s.len() == 0 {
        0
    } else {
        occurrences(s.drop_last(), c) + if s.last() == c {
            1nat
        } else {
            0nat
        }
    }
}

pub proof fn lemma_occurrences_concat(a: Seq<char>, b: Seq<char>, c: char)
    ensures
        occurrences(a + b, c) == occurrences(a, c) + occurrences(b, c),
    decreases b.len(),
{
    if b.len() == 0 {
        assert(a + b =~= a);
    } else {
        lemma_occurrences_concat(a, b.drop_last(), c);
        assert((a + b).drop_last() =~= a + b.drop_last());
        assert((a + b).last() == b.last());
    }
}

pub proof fn lemma_occurrences_absent(s: Seq<char>, c: char)
    requires
        forall|i: int| 0 <= i < s.len() ==> s[i] != c,
    ensures
        occurrences(s, c) == 0,
    decreases s.len(),
{
    if s.len() > 0 {
        lemma_occurrences_absent(s.drop_last(), c);
    }
}

/// The template library accepts a package name exactly when the string has
/// two parts separated by a single `':'`; that is, it contains `':'` once.
pub open spec fn valid_package_name(s: Seq<char>) -> bool {
    occurrences(s, ':') == 1
}

/// The fixed package identifier every standalone example is instantiated under.
pub open spec fn spec_default_package_name() -> Seq<char> {
    "golemx:componentx"@
}

/// Counts how often `c` occurs in `s`.
pub fn count_char(s: &str, c: char) -> (r: usize)
    ensures
        r == occurrences(s@, c),
{
    let n = s.unicode_len();
    let mut r: usize = 0;
    let mut i: usize = 0;
    proof {
        assert(s@.take(0) =~= Seq::<char>::empty());
    }
    while i < n
        invariant
            n == s@.len(),
            i <= n,
            r <= i,
            r == occurrences(s@.take(i as int), c),
        decreases n - i,
    {
        let ch = s.get_char(i);
        proof {
            assert(s@.take(i + 1).drop_last() =~= s@.take(i as int));
            assert(s@.take(i + 1).last() == s@[i as int]);
        }
        if ch == c {
            r = r + 1;
        }
        i = i + 1;
    }
    proof {
        assert(s@.take(n as int) =~= s@);
    }
    r
}

/// Decides whether the template library's package-name rule accepts `s`.
pub fn package_name_valid(s: &str) -> (r: bool)
    ensures
        r == valid_package_name(s@),
{
    count_char(s, ':') == 1
}

/// The fixed package identifier, as a value.
pub fn default_package_name() -> (r: String)
    ensures
        r@ == spec_default_package_name(),
{
    String::from_str("golemx:componentx")
}

/// The component name derived for an example: its name with `"-comp"` added.
pub fn component_name_for(example_name: &str) -> (r: String)
    ensures
        r@ == example_name@ + "-comp"@,
{
    let mut r = String::from_str(example_name);
    r.append("-comp");
    r
}

/// Joins a directory and an entry name with the path separator.
pub fn join_path(directory: &str, entry: &str) -> (r: String)
    ensures
        r@ == directory@ + "/"@ + entry@,
{
    let mut r = String::from_str(directory);
    r.append("/");
    r.append(entry);
    r
}

/// The fixed package identifier is itself a valid package name.
pub proof fn lemma_default_package_name_valid()
    ensures
        valid_package_name(spec_default_package_name()),
{
    reveal_strlit("golemx:componentx");
    assert(occurrences("golemx:componentx"@, ':') == 1) by {
        reveal_with_fuel(occurrences, 18);
    }
}

} // verus!
