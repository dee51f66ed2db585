//! Where managed toolchains live, and how an install in progress is told apart
//! from a finished one.

use vstd::prelude::*;

use std::collections::hash_map::RandomState;
use std::hash::BuildHasher;

use crate::config::platform_cache_dir;
use crate::language::Language;
use crate::text::{
    decimal, decimal_string, file_name, has_prefix, join, join_path, lemma_file_name_of_join,
    path_file_name, starts_with,
};

verus! {

/// The name of every staging directory begins with this.
pub const STAGING_PREFIX: &'static str = ".stage-";

/// The root managed toolchains are installed under when neither the host nor
/// the platform names a cache directory.
pub const FALLBACK_CACHE: &'static str = "/tmp";

/// The directory default install roots are placed under: the platform cache
/// when it reports an absolute one, [`FALLBACK_CACHE`] otherwise.
pub open spec fn default_cache_base(platform: Option<Seq<char>>) -> Seq<char> {
    match platform {
        Some(c) => if has_prefix(c, "/"@) {
            c
        } else {
            FALLBACK_CACHE@
        },
        None => FALLBACK_CACHE@,
    }
}

/// The install root for `language` when the host names none: a directory per
/// language under [`default_cache_base`], never one relative to the working
/// directory.
pub open spec fn default_cache_root(platform: Option<Seq<char>>, language: Seq<char>) -> Seq<char> {
    let base = default_cache_base(platform);
    join_path(join_path(join_path(base, "tinyruntime"@), "toolchains"@), language)
}

/// The install root for `language`: the host's explicit directory verbatim,
/// or the default under `platform_cache` (the platform's cache directory, if
/// it reports one).
pub fn cache_root_in(explicit: Option<&str>, language: &Language, platform_cache: Option<String>) -> (r: String)
    ensures
        explicit matches Some(e) ==> r@ == e@,
        explicit is None ==> r@ == default_cache_root(
            match platform_cache {
                Some(c) => Some(c@),
                None => None,
            },
            language@,
        ),
{
    match explicit {
        Some(dir) => dir.to_owned(),
        None => {
            proof {
                reveal_strlit("/");
            }
            let base = match platform_cache {
                Some(c) => if starts_with(c.as_str(), "/") {
                    c
                } else {
                    FALLBACK_CACHE.to_owned()
                },
                None => FALLBACK_CACHE.to_owned(),
            };
            let app = join(base.as_str(), "tinyruntime");
            let toolchains = join(app.as_str(), "toolchains");
            join(toolchains.as_str(), language.as_str())
        },
    }
}

/// The install root for `language`: the host's explicit directory verbatim,
/// or a directory for the language under the platform cache.
pub fn cache_root(explicit: Option<&str>, language: &Language) -> (r: String)
    ensures
        explicit matches Some(e) ==> r@ == e@,
        explicit is None ==> exists|platform: Option<Seq<char>>|
            r@ == #[trigger] default_cache_root(platform, language@),
        explicit is None ==> has_prefix(r@, "/"@),
{
    let platform = platform_cache_dir();
    let ghost seen = match &platform {
        Some(c) => Some(c@),
        None => None,
    };
    let r = cache_root_in(explicit, language, platform);
    assert(explicit is None ==> r@ == default_cache_root(seen, language@));
    proof {
        law_default_root_is_absolute(seen, language@);
    }
    r
}

/// The staging directory name carrying `token`.
pub open spec fn staging_name(token: nat) -> Seq<char> {
    STAGING_PREFIX@ + decimal(token)
}

/// The staging directory carrying `token`, under `root`.
pub open spec fn staging_path(root: Seq<char>, token: nat) -> Seq<char> {
    join_path(root, staging_name(token))
}

/// `path` names an install in progress: its last component begins with
/// [`STAGING_PREFIX`].
pub open spec fn is_staging_path(path: Seq<char>) -> bool {
    has_prefix(file_name(path), STAGING_PREFIX@)
}

/// Whether `path` names an install in progress, which the reuse path must
/// never treat as a toolchain.
pub fn is_staging(path: &str) -> (r: bool)
    ensures
        r == is_staging_path(path@),
{
    let name = path_file_name(path);
    starts_with(name.as_str(), STAGING_PREFIX)
}

/// A staging directory's name holds no `/`.
proof fn lemma_decimal_has_no_slash(n: nat)
    ensures
        decimal(n).len() > 0,
        forall|k: int| 0 <= k < decimal(n).len() ==> decimal(n)[k] != '/',
    decreases n,
{
    if n >= 10 {
        lemma_decimal_has_no_slash(n / 10);
    }
}

/// Every staging path is recognised as one.
pub proof fn law_staging_paths_are_recognised(root: Seq<char>, token: nat)
    ensures
        is_staging_path(staging_path(root, token)),
{
    reveal_strlit(".stage-");
    let name = staging_name(token);
    lemma_decimal_has_no_slash(token);
    assert forall|k: int| 0 <= k < name.len() implies name[k] != '/' by {
        if k >= STAGING_PREFIX@.len() {
            assert(name[k] == decimal(token)[k - STAGING_PREFIX@.len()]);
        }
    }
    lemma_file_name_of_join(root, name);
    assert(name.subrange(0, STAGING_PREFIX@.len() as int) =~= STAGING_PREFIX@);
}

/// The staging directory carrying `token`, under `root`.
pub fn staging_dir_with(root: &str, token: u64) -> (r: String)
    ensures
        r@ == staging_path(root@, token as nat),
        is_staging_path(r@),
{
    let mut name = STAGING_PREFIX.to_owned();
    let digits = decimal_string(token);
    name.append(digits.as_str());
    proof {
        law_staging_paths_are_recognised(root@, token as nat);
    }
    join(root, name.as_str())
}

/// A fresh staging directory under `root`, named by a random token so that
/// two installs do not stage into one place.
pub fn staging_dir(root: &str) -> (r: String)
    ensures
        exists|token: nat| r@ == #[trigger] staging_path(root@, token),
        is_staging_path(r@),
{
    let state = random_state();
    let token = hash_of_unit(&state);
    staging_dir_with(root, token)
}

/// A hasher state with fresh random keys, from `RandomState::new`. Each call
/// in a thread gets different keys; nothing is stated of them.
#[verifier::external_body]
fn random_state() -> RandomState {
    RandomState::new()
}

/// The hash of `()` under `state`, from `BuildHasher::hash_one`. It depends on
/// the state's random keys, so nothing is stated of it.
#[verifier::external_body]
fn hash_of_unit(state: &RandomState) -> u64 {
    state.hash_one(())
}

/// A default install root is absolute: it never depends on the working
/// directory, so a checked-out workspace cannot pose as an install.
pub proof fn law_default_root_is_absolute(platform: Option<Seq<char>>, language: Seq<char>)
    ensures
        has_prefix(default_cache_root(platform, language), "/"@),
{
    reveal_strlit("/");
    reveal_strlit("/tmp");
    let base = default_cache_base(platform);
    assert(base.len() > 0 && base[0] == '/') by {
        if base != FALLBACK_CACHE@ {
            assert(base.subrange(0, 1)[0] == base[0]);
        }
    }
    let a = join_path(base, "tinyruntime"@);
    lemma_join_keeps_first(base, "tinyruntime"@);
    let b = join_path(a, "toolchains"@);
    lemma_join_keeps_first(a, "toolchains"@);
    let c = join_path(b, language);
    lemma_join_keeps_first(b, language);
    assert(c.subrange(0, 1) =~= "/"@);
}

/// Joining beneath a non-empty path keeps its first character.
proof fn lemma_join_keeps_first(base: Seq<char>, name: Seq<char>)
    requires
        base.len() > 0,
    ensures
        join_path(base, name).len() > 0,
        join_path(base, name)[0] == base[0],
{
}

/// Two different languages never share a default install root.
pub proof fn law_languages_do_not_share_a_root(
    platform: Option<Seq<char>>,
    a: Seq<char>,
    b: Seq<char>,
)
    requires
        a != b,
    ensures
        default_cache_root(platform, a) != default_cache_root(platform, b),
{
    let base = default_cache_base(platform);
    let parent = join_path(join_path(base, "tinyruntime"@), "toolchains"@);
    reveal_strlit("toolchains");
    assert(parent.len() > 0 && parent.last() == 's');
    let p = parent + seq!['/'];
    assert(join_path(parent, a) =~= p + a);
    assert(join_path(parent, b) =~= p + b);
    if p + a == p + b {
        assert(a =~= (p + a).subrange(p.len() as int, (p + a).len() as int));
        assert(b =~= (p + b).subrange(p.len() as int, (p + b).len() as int));
    }
}

} // verus!
