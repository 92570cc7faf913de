//! Names: the directory name made from an environment name, the names
//! tried when it is taken, and environment ids.
use vstd::prelude::*;

use crate::clock::{current_timestamp, is_rfc3339_stamp};
use crate::paths::{has_verbatim_prefix, is_joined, is_plain_relative, join_path};
use crate::text::{
    chars_of, char_is_control, decimal, lemma_decimal_digits, is_control, lemma_decimal_injective,
    lemma_decimal_nonempty, push_char, push_decimal, trim_bounds, trimmed,
};

verus! {

/// Characters that a Windows directory name cannot hold.
pub open spec fn is_reserved_name_char(c: char) -> bool {
    c == '<' || c == '>' || c == ':' || c == '"' || c == '/' || c == '\\' || c == '|' || c == '?'
        || c == '*'
}

/// `c`, or `_` where `c` is reserved or a control character.
pub open spec fn safe_char(c: char) -> char {
    if is_reserved_name_char(c) || is_control(c) {
        '_'
    } else {
        c
    }
}

/// The directory name made from an environment name: the trimmed name
/// with each reserved or control character replaced by `_`.
pub open spec fn safe_name(name: Seq<char>) -> Seq<char> {
    trimmed(name).map_values(|c: char| safe_char(c))
}

/// The name that stands in for a blank one: `env_` and a time stamp, with
/// the stamp's reserved characters (the `:` of the time) replaced by `_`.
pub open spec fn fallback_name(stamp: Seq<char>) -> Seq<char> {
    seq!['e', 'n', 'v', '_'] + stamp.map_values(|c: char| safe_char(c))
}

/// A name usable as a Windows directory name: not empty, and without
/// reserved or control characters.
pub open spec fn is_clean_name(s: Seq<char>) -> bool {
    &&& s.len() > 0
    &&& forall|i: int|
        0 <= i < s.len() ==> !is_reserved_name_char(#[trigger] s[i]) && !is_control(s[i])
}

/// What `safe_char` gives is neither reserved nor a control character.
pub proof fn lemma_safe_char_clean(c: char)
    ensures
        !is_reserved_name_char(safe_char(c)),
        !is_control(safe_char(c)),
{
}

fn safe_char_of(c: char) -> (r: char)
    ensures
        r == safe_char(c),
{
    if c == '<' || c == '>' || c == ':' || c == '"' || c == '/' || c == '\\' || c == '|' || c
        == '?' || c == '*' || char_is_control(c) {
        '_'
    } else {
        c
    }
}

/// The directory name made from `name` (see `safe_name`).
pub fn sanitize_name(name: &str) -> (r: String)
    ensures
        r@ == safe_name(name@),
{
    let v = chars_of(name);
    let (a, b) = trim_bounds(&v);
    let ghost t = v@.subrange(a as int, b as int);
    let mut r = String::new();
    let mut i = a;
    while i < b
        invariant
            a <= i <= b <= v.len(),
            t == v@.subrange(a as int, b as int),
            r@ == t.subrange(0, (i - a) as int).map_values(|c: char| safe_char(c)),
        decreases b - i,
    {
        let c = safe_char_of(v[i]);
        push_char(&mut r, c);
        assert(t.subrange(0, (i + 1 - a) as int).map_values(|c: char| safe_char(c))
            =~= t.subrange(0, (i - a) as int).map_values(|c: char| safe_char(c)).push(c));
        i = i + 1;
    }
    assert(t.subrange(0, (b - a) as int) =~= t);
    r
}

/// `env_` followed by `stamp` with its reserved and control characters
/// replaced by `_` (see `fallback_name`).
pub fn fallback_safe_name(stamp: &str) -> (r: String)
    ensures
        r@ == fallback_name(stamp@),
{
    let v = chars_of(stamp);
    let mut r = String::new();
    push_char(&mut r, 'e');
    push_char(&mut r, 'n');
    push_char(&mut r, 'v');
    push_char(&mut r, '_');
    let ghost head = r@;
    let n = v.len();
    let mut i: usize = 0;
    while i < n
        invariant
            i <= n == v.len(),
            v@ == stamp@,
            head == seq!['e', 'n', 'v', '_'],
            r@ == head + v@.subrange(0, i as int).map_values(|c: char| safe_char(c)),
        decreases n - i,
    {
        let c = safe_char_of(v[i]);
        push_char(&mut r, c);
        assert(v@.subrange(0, i + 1).map_values(|c: char| safe_char(c)) =~= v@.subrange(
            0,
            i as int,
        ).map_values(|c: char| safe_char(c)).push(c));
        i = i + 1;
    }
    assert(v@.subrange(0, n as int) =~= v@);
    assert(r@ =~= fallback_name(stamp@));
    r
}

/// The directory name for an environment called `name`; when nothing is
/// left of the name, `env_` and the current time stamp made safe. Either
/// way the result is usable as a Windows directory name.
pub fn create_safe_name(name: &str) -> (r: String)
    ensures
        is_clean_name(r@),
        safe_name(name@).len() > 0 ==> r@ == safe_name(name@),
        safe_name(name@).len() == 0 ==> exists|stamp: Seq<char>|
            is_rfc3339_stamp(stamp) && r@ == fallback_name(stamp),
{
    let safe = sanitize_name(name);
    if safe.as_str().is_empty() {
        let stamp = current_timestamp();
        let r = fallback_safe_name(stamp.as_str());
        assert forall|i: int| 0 <= i < r@.len() implies !is_reserved_name_char(
            #[trigger] r@[i],
        ) && !is_control(r@[i]) by {
            if i >= 4 {
                lemma_safe_char_clean(stamp@[i - 4]);
            }
        }
        r
    } else {
        assert forall|i: int| 0 <= i < safe@.len() implies !is_reserved_name_char(
            #[trigger] safe@[i],
        ) && !is_control(safe@[i]) by {
            lemma_safe_char_clean(trimmed(name@)[i]);
        }
        safe
    }
}

/// The directory name tried at `attempt`: the safe name itself first,
/// then the safe name, `_` and the attempt number.
pub open spec fn candidate_dir_name(base: Seq<char>, attempt: nat) -> Seq<char> {
    if attempt == 0 {
        base
    } else {
        base + seq!['_'] + decimal(attempt)
    }
}

/// The directory name tried at `attempt` when the names before it are
/// taken (`{safe_name}_{attempt}` from the first retry on).
pub fn profile_dir_name(safe_name: &str, attempt: u32) -> (r: String)
    ensures
        r@ == candidate_dir_name(safe_name@, attempt as nat),
{
    let mut r = String::from_str(safe_name);
    if attempt > 0 {
        push_char(&mut r, '_');
        push_decimal(&mut r, attempt as u128);
    }
    r
}

/// The candidate names of a clean safe name are plain relative names.
proof fn lemma_candidate_plain(base: Seq<char>, attempt: nat)
    requires
        is_clean_name(base),
    ensures
        is_plain_relative(candidate_dir_name(base, attempt)),
{
    let c = candidate_dir_name(base, attempt);
    lemma_decimal_digits(attempt);
    assert(c[0] == base[0]);
    assert forall|i: int| 0 <= i < c.len() implies c[i] != ':' by {
        if i < base.len() {
            assert(c[i] == base[i]);
        } else if i > base.len() {
            assert(c[i] == decimal(attempt)[i - base.len() - 1]);
        }
    }
}

/// The directory of attempt `attempt` inside the profile root.
pub fn profile_dir_path(profiles_root: &str, safe_name: &str, attempt: u32) -> (r: String)
    requires
        is_clean_name(safe_name@),
    ensures
        !has_verbatim_prefix(profiles_root@) ==> is_joined(
            profiles_root@,
            candidate_dir_name(safe_name@, attempt as nat),
            r@,
        ),
{
    let name = profile_dir_name(safe_name, attempt);
    proof {
        lemma_candidate_plain(safe_name@, attempt as nat);
    }
    join_path(profiles_root, name.as_str())
}

/// What the search for a free profile directory does after probing the
/// directory of one attempt.
#[derive(Debug, PartialEq, Eq)]
pub enum DirNameStep {
    /// Nothing exists at the probed directory: create the environment's
    /// profile there.
    Use(String),
    /// The probed directory exists: probe the one of this attempt next.
    Probe(u32),
    /// Every attempt number has been tried.
    Exhausted,
}

/// The search for a free profile directory: `candidate` is the directory
/// of `attempt` (`profile_dir_path`) that was just probed. It is used when
/// nothing exists there; otherwise the next attempt is probed.
pub fn next_dir_name_step(candidate: String, attempt: u32, taken: bool) -> (r: DirNameStep)
    ensures
        !taken ==> r == DirNameStep::Use(candidate),
        taken && attempt < u32::MAX ==> r == DirNameStep::Probe((attempt + 1) as u32),
        taken && attempt == u32::MAX ==> r == DirNameStep::Exhausted,
{
    if !taken {
        DirNameStep::Use(candidate)
    } else if attempt < u32::MAX {
        DirNameStep::Probe(attempt + 1)
    } else {
        DirNameStep::Exhausted
    }
}

/// Distinct attempts try distinct names, so a search over attempts never
/// tries a name twice.
pub proof fn lemma_candidate_names_distinct(base: Seq<char>, i: nat, j: nat)
    requires
        i != j,
    ensures
        candidate_dir_name(base, i) != candidate_dir_name(base, j),
{
    lemma_decimal_nonempty(i);
    lemma_decimal_nonempty(j);
    if i > 0 && j > 0 {
        if candidate_dir_name(base, i) == candidate_dir_name(base, j) {
            let ci = candidate_dir_name(base, i);
            let cj = candidate_dir_name(base, j);
            assert(ci.subrange(base.len() + 1int, ci.len() as int) =~= decimal(i));
            assert(cj.subrange(base.len() + 1int, cj.len() as int) =~= decimal(j));
            lemma_decimal_injective(i, j);
        }
    } else {
        assert(candidate_dir_name(base, i).len() != candidate_dir_name(base, j).len());
    }
}

/// The id of a new environment: the creation time in milliseconds, `_`,
/// and the number of environments including the new one.
pub open spec fn environment_id_text(millis: nat, count: nat) -> Seq<char> {
    decimal(millis) + seq!['_'] + decimal(count)
}

/// The id for an environment created at `millis` when `existing`
/// environments are already listed (`format!("{millis}_{existing + 1}")`).
pub fn environment_id(millis: u128, existing: usize) -> (r: String)
    ensures
        r@ == environment_id_text(millis as nat, existing as nat + 1),
{
    let mut r = String::new();
    push_decimal(&mut r, millis);
    push_char(&mut r, '_');
    push_decimal(&mut r, existing as u128 + 1);
    assert(r@ =~= environment_id_text(millis as nat, existing as nat + 1));
    r
}

} // verus!
