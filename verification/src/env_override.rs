//! Stack and heap sizes resolved through named external variables.
//!
//! An [`EnvOverride`] couples a default byte count with the optional name
//! of an externally set variable. At resolution time the variable's value,
//! if present in the environment snapshot, supersedes the default. A value
//! is a plain unsigned decimal integer, optionally with a `k` or `K`
//! suffix meaning multiples of 1024 bytes.

use vstd::prelude::*;
use vstd::string::StrSliceExecFns;

verus! {

/// Is `c` a decimal digit?
pub open spec fn is_digit(c: char) -> bool {
    48 <= c as u32 <= 57
}

/// The numeric value of digit `c`.
pub open spec fn digit_val(c: char) -> int {
    c as u32 - 48
}

/// Is `s` entirely decimal digits?
pub open spec fn all_digits(s: Seq<char>) -> bool {
    forall|i: int| 0 <= i < s.len() ==> is_digit(#[trigger] s[i])
}

/// The value of the digit string `s`, most significant digit first.
pub open spec fn digits_val(s: Seq<char>) -> int
    decreases s.len(),
{
    if s.len() == 0 {
        0
    } else {
        digits_val(s.drop_last()) * 10 + digit_val(s.last())
    }
}

/// What parsing `s` as a plain unsigned size yields: the value of a
/// non-empty, all-digit string whose value fits, and nothing else.
pub open spec fn spec_parse_usize(s: Seq<char>) -> Option<int> {
    if s.len() > 0 && all_digits(s) && digits_val(s) <= usize::MAX {
        Some(digits_val(s))
    } else {
        None
    }
}

/// What parsing `s` as a size value yields: a plain unsigned integer, or
/// one with a binary-kilo `k`/`K` suffix; `None` on anything else or on a
/// value that cannot fit.
pub open spec fn spec_size_value(s: Seq<char>) -> Option<int> {
    if s.len() > 0 && (s.last() == 'k' || s.last() == 'K') {
        match spec_parse_usize(s.drop_last()) {
            Some(n) => if n * 1024 <= usize::MAX {
                Some(n * 1024)
            } else {
                None
            },
            None => None,
        }
    } else {
        spec_parse_usize(s)
    }
}

proof fn lemma_digits_val_nonneg(s: Seq<char>)
    requires
        all_digits(s),
    ensures
        digits_val(s) >= 0,
    decreases s.len(),
{
    if s.len() > 0 {
        assert(all_digits(s.drop_last()));
        lemma_digits_val_nonneg(s.drop_last());
    }
}

/// A digit string is worth at least any of its prefixes.
proof fn lemma_digits_val_prefix_le(s: Seq<char>, i: int)
    requires
        0 <= i <= s.len(),
        all_digits(s),
    ensures
        digits_val(s.take(i)) <= digits_val(s),
    decreases s.len() - i,
{
    if i < s.len() {
        assert(s.take(i + 1).drop_last() =~= s.take(i));
        assert(all_digits(s.take(i)));
        lemma_digits_val_nonneg(s.take(i));
        assert(digits_val(s.take(i + 1)) == digits_val(s.take(i)) * 10 + digit_val(s[i]));
        lemma_digits_val_prefix_le(s, i + 1);
    } else {
        assert(s.take(i) =~= s);
    }
}

/// Parses a plain unsigned decimal integer.
fn parse_usize(s: &str) -> (r: Option<usize>)
    ensures
        r matches Some(n) ==> spec_parse_usize(s@) == Some(n as int),
        r is None ==> spec_parse_usize(s@) is None,
{
    let len = s.unicode_len();
    if len == 0 {
        return None;
    }
    let mut i: usize = 0;
    let mut acc: usize = 0;
    while i < len
        invariant
            0 <= i <= len,
            len == s@.len(),
            all_digits(s@.take(i as int)),
            acc == digits_val(s@.take(i as int)),
        decreases len - i,
    {
        let c = s.get_char(i);
        let v = c as u32;
        if v < 48 || v > 57 {
            assert(!is_digit(s@[i as int]));
            return None;
        }
        let d = (v - 48) as usize;
        assert(s@.take(i as int + 1).drop_last() =~= s@.take(i as int));
        assert(digits_val(s@.take(i as int + 1)) == acc * 10 + d);
        if acc > (usize::MAX - d) / 10 {
            proof {
                // The digits seen so far already exceed the largest size.
                assert(acc * 10 + d > usize::MAX);
                if all_digits(s@) {
                    lemma_digits_val_prefix_le(s@, i as int + 1);
                }
            }
            return None;
        }
        acc = acc * 10 + d;
        i = i + 1;
    }
    assert(s@.take(len as int) =~= s@);
    Some(acc)
}

/// Parses a size value: a plain unsigned integer, or one with a `k`/`K`
/// suffix meaning multiples of 1024.
pub(crate) fn parse_size_value(s: &str) -> (r: Option<usize>)
    ensures
        r matches Some(n) ==> spec_size_value(s@) == Some(n as int),
        r is None ==> spec_size_value(s@) is None,
{
    let len = s.unicode_len();
    if len > 0 {
        let last = s.get_char(len - 1);
        let lv = last as u32;
        if lv == 107 || lv == 75 {
            assert(s@.last() == 'k' || s@.last() == 'K');
            let prefix = s.substring_char(0, len - 1);
            assert(prefix@ =~= s@.drop_last());
            match parse_usize(prefix) {
                Some(n) => {
                    if n <= usize::MAX / 1024 {
                        Some(n * 1024)
                    } else {
                        None
                    }
                },
                None => None,
            }
        } else {
            assert(!(s@.last() == 'k' || s@.last() == 'K'));
            parse_usize(s)
        }
    } else {
        parse_usize(s)
    }
}

/// The first value in the environment snapshot under `key`, if any.
pub open spec fn spec_env_lookup(env: Seq<(String, String)>, key: Seq<char>) -> Option<Seq<char>>
    decreases env.len(),
{
    if env.len() == 0 {
        None
    } else if env[0].0@ == key {
        Some(env[0].1@)
    } else {
        spec_env_lookup(env.drop_first(), key)
    }
}

/// Looks `key` up in an environment snapshot of `(name, value)` pairs.
fn env_lookup(env: &Vec<(String, String)>, key: &String) -> (r: Option<String>)
    ensures
        r matches Some(v) ==> spec_env_lookup(env@, key@) == Some(v@),
        r is None ==> spec_env_lookup(env@, key@) is None,
{
    let mut i: usize = 0;
    assert(env@.skip(0) =~= env@);
    while i < env.len()
        invariant
            0 <= i <= env.len(),
            spec_env_lookup(env@, key@) == spec_env_lookup(env@.skip(i as int), key@),
        decreases env.len() - i,
    {
        let entry = &env[i];
        assert(env@.skip(i as int)[0] == env@[i as int]);
        if entry.0.eq(key) {
            return Some(entry.1.clone());
        }
        assert(env@.skip(i as int).drop_first() =~= env@.skip(i as int + 1));
        i = i + 1;
    }
    None
}

/// A byte count with an optional external override.
///
/// The default applies unless the named variable is set in the
/// environment snapshot consulted at resolution time.
#[derive(Debug, Clone, PartialEq, Eq)]
pub struct EnvOverride {
    /// The byte count used when no override variable applies.
    pub default: usize,
    /// The name of the variable consulted at resolution time, if any.
    pub env: Option<String>,
}

/// What resolving `o` against the environment snapshot yields: the
/// override variable's parsed value when the variable is named and set,
/// the default otherwise, and `None` on a value that does not parse.
pub open spec fn spec_resolved_size(o: EnvOverride, env: Seq<(String, String)>) -> Option<int> {
    match o.env {
        None => Some(o.default as int),
        Some(key) => match spec_env_lookup(env, key@) {
            None => Some(o.default as int),
            Some(v) => spec_size_value(v),
        },
    }
}

impl EnvOverride {
    /// An override that always resolves to `default`, until a variable
    /// name is set.
    pub fn new(default: usize) -> (r: Self)
        ensures
            r.default == default,
            r.env is None,
    {
        Self { default, env: None }
    }

    /// Names the external variable consulted at resolution time.
    ///
    /// Naming a second variable replaces the first outright: only the
    /// most recently assigned name is consulted.
    pub fn set_env_key(&mut self, key: String)
        ensures
            final(self).default == old(self).default,
            final(self).env == Some(key),
    {
        self.env = Some(key);
    }

    /// Resolution consults only the currently named variable.
    ///
    /// Naming a variable replaces any earlier name outright, so after
    /// naming `A` and then `B`, the resolved size depends on `B`'s value
    /// alone: `B`'s value when it is set, the default when it is not —
    /// whatever `A` holds.
    pub proof fn lemma_resolve_consults_named_key_only(
        self,
        env: Seq<(String, String)>,
        key: Seq<char>,
    )
        requires
            self.env matches Some(k) && k@ == key,
        ensures
            spec_resolved_size(self, env) == match spec_env_lookup(env, key) {
                None => Some(self.default as int),
                Some(v) => spec_size_value(v),
            },
    {
    }

    /// Resolves the byte count against an environment snapshot.
    ///
    /// Returns `None` when the override variable is set but its value is
    /// neither a plain unsigned integer nor one with a `k`/`K` suffix, or
    /// does not fit.
    pub fn resolve(&self, env: &Vec<(String, String)>) -> (r: Option<usize>)
        ensures
            r matches Some(n) ==> spec_resolved_size(*self, env@) == Some(n as int),
            r is None ==> spec_resolved_size(*self, env@) is None,
    {
        match &self.env {
            None => Some(self.default),
            Some(key) => match env_lookup(env, key) {
                None => Some(self.default),
                Some(val) => parse_size_value(val.as_str()),
            },
        }
    }
}

} // verus!
