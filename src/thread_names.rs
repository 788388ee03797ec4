//! Which background threads of third-party libraries get the lowest scheduling priority.
use vstd::prelude::*;
use vstd::string::StrSliceExecFns;

verus! {

/// Whether `s` begins with `prefix`.
pub open spec fn spec_has_prefix(s: Seq<char>, prefix: Seq<char>) -> bool {
    prefix.len() <= s.len() && s.subrange(0, prefix.len() as int) == prefix
}

/// Whether a thread of this name is one to deprioritize. The kernel cuts thread names to
/// fifteen bytes, so the prefixes are cut the same way.
pub open spec fn spec_is_background_thread(comm: Seq<char>) -> bool {
    spec_has_prefix(comm, "OpenTelemetry.T"@) || spec_has_prefix(comm, "tracing-appende"@)
        || spec_has_prefix(comm, "reqwest-interna"@)
}

/// Returns `true` if `s` begins with `prefix`.
pub fn has_prefix(s: &str, prefix: &str) -> (r: bool)
    ensures
        r == spec_has_prefix(s@, prefix@),
{
    let n = prefix.unicode_len();
    if n > s.unicode_len() {
        return false;
    }
    let mut i: usize = 0;
    while i < n
        invariant
            n == prefix@.len(),
            n <= s@.len(),
            i <= n,
            s@.subrange(0, i as int) == prefix@.subrange(0, i as int),
        decreases n - i,
    {
        if s.get_char(i) != prefix.get_char(i) {
            assert(s@.subrange(0, n as int)[i as int] != prefix@[i as int]);
            return false;
        }
        assert(s@.subrange(0, i + 1) =~= s@.subrange(0, i as int).push(s@[i as int]));
        assert(prefix@.subrange(0, i + 1) =~= prefix@.subrange(0, i as int).push(prefix@[i as int]));
        i = i + 1;
    }
    assert(prefix@ =~= prefix@.subrange(0, n as int));
    true
}

/// Returns `true` if a thread of this name is one to deprioritize.
pub fn is_background_thread(comm: &str) -> (r: bool)
    ensures
        r == spec_is_background_thread(comm@),
{
    has_prefix(comm, "OpenTelemetry.T") || has_prefix(comm, "tracing-appende") || has_prefix(
        comm,
        "reqwest-interna",
    )
}

} // verus!
