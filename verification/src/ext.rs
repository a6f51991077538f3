//! Trusted declarations for the outside crates the library leans on: the
//! wall clock, tasks' cancellation handles, and the string cache.

use vstd::prelude::*;
use string_interner::DefaultStringInterner;

verus! {

/// Cancellation handle attached to an active task. The library only carries
/// and drops these values; it never triggers them itself.
#[verifier::external_type_specification]
#[verifier::external_body]
pub struct ExCancellationToken(tokio_util::sync::CancellationToken);

/// Current wall-clock time as milliseconds since the Unix epoch.
///
/// Relies on chrono::Utc::now and DateTime::timestamp_millis; the result
/// depends on the clock, so nothing is promised of it. chrono::Utc::now
/// panics on a host clock set before the Unix epoch; only the application
/// shell calls this — every verified function takes the time as a plain
/// argument, so no proof rests on the call returning.
#[verifier::external_body]
pub fn now_timestamp_ms() -> i64 {
    chrono::Utc::now().timestamp_millis()
}

/// String cache used to deduplicate task and backend names. Holds a
/// string-interner; that type's bounds keep Verus from declaring it
/// directly, so the whole struct is opaque and its methods are wrapped.
#[verifier::external_body]
pub struct NameCache {
    interner: DefaultStringInterner,
}

/// The set of strings a cache holds.
pub uninterp spec fn interned_strings(cache: NameCache) -> Set<Seq<char>>;

/// The cache holds exactly `n` distinct strings.
pub open spec fn interner_size_is(cache: NameCache, n: usize) -> bool {
    interned_strings(cache).finite() && interned_strings(cache).len() == n
}

/// Relies on StringInterner::new: a fresh cache holds nothing.
#[verifier::external_body]
pub fn interner_new() -> (r: NameCache)
    ensures
        interned_strings(r) == Set::<Seq<char>>::empty(),
{
    NameCache { interner: DefaultStringInterner::new() }
}

/// Relies on StringInterner::len: the number of distinct strings interned.
#[verifier::external_body]
pub fn interner_len(cache: &NameCache) -> (r: usize)
    ensures
        interner_size_is(*cache, r),
{
    cache.interner.len()
}

/// Relies on StringInterner::get_or_intern: afterwards the cache holds the
/// given string besides everything it already held. Interning panics once
/// the symbol space is exhausted, so room for one more string is required.
#[verifier::external_body]
pub fn interner_intern(cache: &mut NameCache, s: &str)
    requires
        interned_strings(*old(cache)).finite(),
        interned_strings(*old(cache)).len() + 1 < 0x1_0000_0000,
    ensures
        interned_strings(*final(cache)) == interned_strings(*old(cache)).insert(s@),
{
    cache.interner.get_or_intern(s);
}

} // verus!
