//! The component-add loop for composable applications.
//!
//! For each supported language's default component group, the harness adds a
//! few components under freshly generated names.  A generated name is the
//! fixed prefix `"app:comp-"` followed by ten random characters from a small
//! fixed alphabet, which makes it a valid package name.

use vstd::prelude::*;

use crate::names::lemma_occurrences_absent;
use crate::names::lemma_occurrences_concat;
use crate::names::occurrences;
use crate::names::valid_package_name;

verus! {

/// How many components are added per language in the component-add loop.
pub const COMPONENT_ADD_ROUNDS: usize = 4;

/// The alphabet the random part of a generated component name is drawn from.
pub open spec fn spec_app_alphabet() -> Seq<char> {
    seq!['a', 'b', 'c', 'd', 'e', 'f', 'g', 'h']
}

/// The fixed prefix of a generated component name.
pub open spec fn spec_app_prefix() -> Seq<char> {
    "app:comp-"@
}

/// The alphabet, as a value.
pub fn app_alphabet() -> (r: Vec<char>)
    ensures
        r@ == spec_app_alphabet(),
{
    let mut r: Vec<char> = Vec::new();
    r.push('a');
    r.push('b');
    r.push('c');
    r.push('d');
    r.push('e');
    r.push('f');
    r.push('g');
    r.push('h');
    proof {
        assert(r@ =~= spec_app_alphabet());
    }
    r
}

/// Whether a count is a power of two.
pub open spec fn power_of_two(n: nat) -> bool
    decreases n,
{
    if n == 0 {
        false
    } else if n == 1 {
        true
    } else {
        n % 2 == 0 && power_of_two(n / 2)
    }
}

/// Relies on nanoid::format, drawing bytes from nanoid::rngs::default: the
/// returned identifier has exactly `size` characters, each taken from
/// `alphabet`.  Which characters come back is random, so nothing more is
/// promised of them.  The alphabet's length must be a power of two: for such
/// an alphabet the generator draws exactly `size` bytes and maps each to one
/// character, so the call returns for every admitted input, where any other
/// length would send it sampling with retries, with no certain end.
#[verifier::external_body]
fn random_id(alphabet: &Vec<char>, size: usize) -> (r: String)
    requires
        power_of_two(alphabet@.len() as nat),
        alphabet@.len() <= 255,
        forall|i: int| 0 <= i < alphabet@.len() ==> (alphabet@[i] as u32) < 128,
    ensures
        r@.len() == size as nat,
        forall|i: int| 0 <= i < r@.len() ==> alphabet@.contains(r@[i]),
{
    nanoid::format(nanoid::rngs::default, alphabet.as_slice(), size)
}

/// Generates a fresh component name: the fixed prefix followed by ten random
/// characters from the alphabet.  Every name this returns is a valid package
/// name, since the prefix holds the single `':'`.
pub fn fresh_component_name() -> (r: String)
    ensures
        r@.len() == spec_app_prefix().len() + 10,
        r@.subrange(0, spec_app_prefix().len() as int) == spec_app_prefix(),
        forall|i: int|
            spec_app_prefix().len() <= i < r@.len() ==> spec_app_alphabet().contains(r@[i]),
        valid_package_name(r@),
{
    let alphabet = app_alphabet();
    proof {
        assert(power_of_two(spec_app_alphabet().len() as nat)) by {
            reveal_with_fuel(power_of_two, 5);
        }
    }
    let id = random_id(&alphabet, 10);
    let mut r = String::from_str("app:comp-");
    r.append(id.as_str());
    proof {
        reveal_strlit("app:comp-");
        assert(r@.subrange(0, spec_app_prefix().len() as int) =~= spec_app_prefix());
        assert(occurrences(spec_app_prefix(), ':') == 1) by {
            reveal_with_fuel(occurrences, 10);
        }
        assert(occurrences(id@, ':') == 0) by {
            assert forall|i: int| 0 <= i < id@.len() implies id@[i] != ':' by {
                assert(spec_app_alphabet().contains(id@[i]));
            }
            lemma_occurrences_absent(id@, ':');
        }
        lemma_occurrences_concat(spec_app_prefix(), id@, ':');
    }
    r
}

/// Checks the shape of a language's default component group: it must exist and
/// must contain exactly one component template.  A violation is reported as a
/// descriptive fatal error.
pub fn default_group_check(has_default_group: bool, component_count: usize) -> (r: Result<
    (),
    String,
>)
    ensures
        r is Ok <==> has_default_group && component_count == 1,
        !has_default_group ==> (r matches Err(m) && m@
            == "no default component group for language"@),
        has_default_group && component_count != 1 ==> (r matches Err(m) && m@
            == "default component group must contain exactly one component template"@),
{
    if !has_default_group {
        Err(String::from_str("no default component group for language"))
    } else if component_count != 1 {
        Err(String::from_str("default component group must contain exactly one component template"))
    } else {
        Ok(())
    }
}

/// The directory the component-add loop works in: the target path (or its
/// default) with the fixed application directory underneath.
pub fn app_target_path(target: &Option<String>) -> (r: String)
    ensures
        r@ == (match *target {
            Some(ref t) => t@,
            None => "examples"@,
        }) + "/"@ + "app-default"@,
{
    let base = match target {
        Some(t) => t.clone(),
        None => String::from_str("examples"),
    };
    crate::names::join_path(base.as_str(), "app-default")
}

} // verus!
