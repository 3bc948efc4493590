//! Handle derivation: from a branch name, an optional explicit override and
//! the configuration to a validated, filesystem- and window-safe identifier.
//!
//! An explicit override bypasses both the naming strategy and the prefix;
//! otherwise the strategy is applied to the branch name and the configured
//! prefix is prepended. The result is always slugged, then validated.

use vstd::prelude::*;
use vstd::string::*;

use crate::config::{spec_derive_name, Config, WorktreeNaming};
use crate::errors::WorkmuxError;
use crate::strutil::{
    contains_dot_dot, contains_space, first_line, has_dot_dot, is_space_char,
    strip_char_ends, strip_space_ends, take_first_line, trim_char_ends, trim_spaces,
};

verus! {

/// The slug of a character sequence, as computed by the slugging
/// collaborator. Same input, same slug, on every machine.
pub uninterp spec fn slug_of(s: Seq<char>) -> Seq<char>;

/// The characters a slug may consist of.
pub open spec fn is_slug_char(c: char) -> bool {
    (('a' as u32) <= (c as u32) && (c as u32) <= ('z' as u32)) || (('0' as u32) <= (c as u32) && (
    c as u32) <= ('9' as u32)) || c == '-'
}

/// Relies on slug::slugify: the result is a function of the input characters
/// alone; it consists of `a-z`, `0-9` and `-`, never starts or ends with
/// `-`, and an empty input yields an empty slug.
#[verifier::external_body]
fn slugify(s: &str) -> (r: String)
    ensures
        r@ == slug_of(s@),
        forall|i: int| 0 <= i < r@.len() ==> is_slug_char(#[trigger] r@[i]),
        r@.len() > 0 ==> r@[0] != '-' && r@[r@.len() - 1] != '-',
        s@.len() == 0 ==> r@.len() == 0,
{
    slug::slugify(s)
}

/// A handle safe for filesystem and window use: non-empty, no parent
/// traversal, no leading separator, no whitespace.
pub open spec fn spec_valid_handle(s: Seq<char>) -> bool {
    &&& s.len() > 0
    &&& !has_dot_dot(s)
    &&& s[0] != '/'
    &&& !(exists|j: int| 0 <= j < s.len() && is_space_char(#[trigger] s[j]))
}

/// Validates that a handle is safe for filesystem and window use.
///
/// Slugging should already have removed everything this rejects; the check
/// stays as a redundant safety net.
pub fn validate_handle(handle: &str) -> (r: Result<(), WorkmuxError>)
    ensures
        r is Ok <==> spec_valid_handle(handle@),
        r matches Err(e) ==> e matches WorkmuxError::InvalidHandle(_),
{
    if handle.unicode_len() == 0 {
        return Err(WorkmuxError::InvalidHandle(String::from_str(handle)));
    }
    if contains_dot_dot(handle) || handle.get_char(0) == '/' {
        return Err(WorkmuxError::InvalidHandle(String::from_str(handle)));
    }
    if contains_space(handle) {
        return Err(WorkmuxError::InvalidHandle(String::from_str(handle)));
    }
    Ok(())
}

/// The character sequence handed to the slugging step: the explicit override
/// when one is given, else the strategy-derived name behind the configured
/// prefix.
pub open spec fn spec_handle_source(
    branch: Seq<char>,
    explicit: Option<Seq<char>>,
    naming: WorktreeNaming,
    prefix: Option<Seq<char>>,
) -> Seq<char> {
    match explicit {
        Some(n) => n,
        None => match prefix {
            Some(p) => p + spec_derive_name(naming, branch),
            None => spec_derive_name(naming, branch),
        },
    }
}

/// The views of an optional borrowed string.
pub open spec fn view_opt_str(o: Option<&str>) -> Option<Seq<char>> {
    match o {
        Some(s) => Some(s@),
        None => None,
    }
}

/// The views of an optional owned string.
pub open spec fn view_opt_string(o: Option<String>) -> Option<Seq<char>> {
    match o {
        Some(s) => Some(s@),
        None => None,
    }
}

/// Derives the handle (worktree directory name and window base name) from
/// the branch name, an optional explicit override, and the configuration.
///
/// An explicit override takes priority and bypasses both the naming strategy
/// and the prefix. The handle is always slugged; it is an error only when
/// the slug comes out empty.
pub fn derive_handle(branch_name: &str, explicit_name: Option<&str>, config: &Config) -> (r: Result<
    String,
    WorkmuxError,
>)
    ensures
        ({
            let src = spec_handle_source(
                branch_name@,
                view_opt_str(explicit_name),
                config.worktree_naming,
                view_opt_string(config.worktree_prefix),
            );
            &&& (r is Ok <==> slug_of(src).len() > 0)
            &&& (r matches Ok(h) ==> h@ == slug_of(src))
            &&& (r matches Ok(h) ==> spec_valid_handle(h@))
            &&& (r matches Err(e) ==> e matches WorkmuxError::InvalidHandle(_))
        }),
{
    let source: String = match explicit_name {
        Some(name) => String::from_str(name),
        None => {
            let derived = config.worktree_naming.derive_name(branch_name);
            match &config.worktree_prefix {
                Some(p) => {
                    let mut t = p.clone();
                    t.append(derived.as_str());
                    t
                },
                None => derived,
            }
        },
    };
    let handle = slugify(source.as_str());
    proof {
        if handle@.len() > 0 {
            if has_dot_dot(handle@) {
                let i = choose|i: int|
                    0 <= i && i + 1 < handle@.len() && #[trigger] handle@[i] == '.' && handle@[i
                        + 1] == '.';
                assert(is_slug_char(handle@[i]));
            }
            if exists|j: int| 0 <= j < handle@.len() && is_space_char(#[trigger] handle@[j]) {
                let j = choose|j: int|
                    0 <= j < handle@.len() && is_space_char(#[trigger] handle@[j]);
                assert(is_slug_char(handle@[j]));
            }
            assert(is_slug_char(handle@[0]));
            assert(spec_valid_handle(handle@));
        }
    }
    match validate_handle(handle.as_str()) {
        Ok(()) => Ok(handle),
        Err(e) => Err(e),
    }
}

/// Cleans a raw generated branch name: code fences and surrounding
/// whitespace are stripped, only the first line is kept, and the rest is
/// slugged into a valid branch name.
pub open spec fn spec_sanitize_source(raw: Seq<char>) -> Seq<char> {
    trim_spaces(first_line(trim_spaces(trim_char_ends(raw, '`'))))
}

/// Strips markdown fences and extra lines from a raw suggestion, then slugs
/// it. The result is always slug-form: lowercase alphanumerics and dashes,
/// with no dash at either end — hence a valid branch name when non-empty.
pub fn sanitize_branch_name(raw: &str) -> (r: String)
    ensures
        r@ == slug_of(spec_sanitize_source(raw@)),
        forall|i: int| 0 <= i < r@.len() ==> is_slug_char(#[trigger] r@[i]),
        r@.len() > 0 ==> r@[0] != '-' && r@[r@.len() - 1] != '-',
{
    let s1 = strip_char_ends(raw, '`');
    let s2 = strip_space_ends(s1);
    let s3 = take_first_line(s2);
    let s4 = strip_space_ends(s3);
    slugify(s4)
}

/// Handle derivation is deterministic: without an explicit override, two
/// derivations from the same branch, strategy and prefix agree.
pub proof fn lemma_handle_determinism(
    r1: Seq<char>,
    r2: Seq<char>,
    branch: Seq<char>,
    naming: WorktreeNaming,
    prefix: Option<Seq<char>>,
)
    requires
        r1 == slug_of(spec_handle_source(branch, None, naming, prefix)),
        r2 == slug_of(spec_handle_source(branch, None, naming, prefix)),
    ensures
        r1 == r2,
{
}

/// An explicit override bypasses the configuration entirely: whatever the
/// branch, strategy and prefix, the handle source is the override itself.
pub proof fn lemma_override_bypass(
    b1: Seq<char>,
    b2: Seq<char>,
    n1: WorktreeNaming,
    n2: WorktreeNaming,
    p1: Option<Seq<char>>,
    p2: Option<Seq<char>>,
    name: Seq<char>,
)
    ensures
        spec_handle_source(b1, Some(name), n1, p1) == spec_handle_source(b2, Some(name), n2, p2),
        spec_handle_source(b1, Some(name), n1, p1) == name,
{
}

} // verus!
