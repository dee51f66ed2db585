//! The environment a worker process is started with.
//!
//! It is an allow-list: this router is loaded into a host that holds
//! credentials, and a worker runs code that must not be able to read them. A
//! worker gets `PATH` (the toolchain's directory first), the few inherited
//! variables named in [`is_inherited`], and whatever its provider adds.

use vstd::prelude::*;

use crate::text::{has_prefix, same_text};

verus! {

/// An environment as the contracts see it: names and values, in order.
pub type EnvView = Seq<(Seq<char>, Seq<char>)>;

/// The inherited variables a worker may see, besides `PATH`.
pub open spec fn is_inherited(name: Seq<char>) -> bool {
    ||| name == "HOME"@
    ||| name == "USER"@
    ||| name == "LANG"@
    ||| name == "LC_ALL"@
    ||| name == "TMPDIR"@
    ||| name == "TZ"@
}

/// The value of the first `PATH` in `env`, if there is one.
pub open spec fn first_path(env: EnvView) -> Option<Seq<char>>
    decreases env.len(),
{
    if env.len() == 0 {
        None
    } else if env[0].0 == "PATH"@ {
        Some(env[0].1)
    } else {
        first_path(env.drop_first())
    }
}

/// The worker's `PATH`: the toolchain directory, then the inherited search
/// path when there is a non-empty one.
pub open spec fn worker_path(bin: Seq<char>, inherited: EnvView) -> Seq<char> {
    match first_path(inherited) {
        Some(p) => if p.len() > 0 {
            bin + ":"@ + p
        } else {
            bin
        },
        None => bin,
    }
}

/// The inherited variables on the allow-list, in the order they came.
pub open spec fn kept(inherited: EnvView) -> EnvView
    decreases inherited.len(),
{
    if inherited.len() == 0 {
        Seq::empty()
    } else {
        let rest = kept(inherited.drop_last());
        if is_inherited(inherited.last().0) {
            rest.push(inherited.last())
        } else {
            rest
        }
    }
}

/// A worker's environment: `PATH` first, then the allow-listed inherited
/// variables, then the provider's extras.
pub open spec fn worker_env(bin: Seq<char>, extra: EnvView, inherited: EnvView) -> EnvView {
    seq![("PATH"@, worker_path(bin, inherited))] + kept(inherited) + extra
}

/// A pair of texts as the contracts see it.
pub open spec fn pair_view(p: (String, String)) -> (Seq<char>, Seq<char>) {
    (p.0@, p.1@)
}

/// Pairs of texts as the contracts see them.
pub open spec fn env_view(v: Seq<(String, String)>) -> EnvView {
    v.map_values(|p: (String, String)| pair_view(p))
}

/// Executable form of [`is_inherited`].
fn inherited_name(name: &str) -> (r: bool)
    ensures
        r == is_inherited(name@),
{
    same_text(name, "HOME") || same_text(name, "USER") || same_text(name, "LANG") || same_text(
        name,
        "LC_ALL",
    ) || same_text(name, "TMPDIR") || same_text(name, "TZ")
}

/// A copy of a pair of texts.
fn copy_pair(p: &(String, String)) -> (r: (String, String))
    ensures
        pair_view(r) == pair_view(*p),
{
    (p.0.clone(), p.1.clone())
}

/// Where the first inherited `PATH` stands, if anywhere.
fn find_path(inherited: &[(String, String)]) -> (r: Option<usize>)
    ensures
        r matches Some(k) ==> k < inherited@.len() && first_path(env_view(inherited@)) == Some(
            inherited@[k as int].1@,
        ),
        r is None ==> first_path(env_view(inherited@)) is None,
{
    let ghost inh = env_view(inherited@);
    let mut i: usize = 0;
    assert(inh.subrange(0, inherited.len() as int) =~= inh);
    while i < inherited.len()
        invariant
            i <= inherited.len(),
            inh == env_view(inherited@),
            first_path(inh) == first_path(inh.subrange(i as int, inherited.len() as int)),
        decreases inherited.len() - i,
    {
        let ghost tail = inh.subrange(i as int, inherited.len() as int);
        assert(tail[0] == pair_view(inherited@[i as int]));
        if same_text(inherited[i].0.as_str(), "PATH") {
            return Some(i);
        }
        assert(tail.drop_first() =~= inh.subrange(i + 1, inherited.len() as int));
        i = i + 1;
    }
    None
}

/// Builds a worker's environment from the toolchain's `bin` directory, the
/// provider's `extra` variables and this process's `inherited` environment.
pub fn build(bin: &str, extra: &[(String, String)], inherited: &[(String, String)]) -> (r: Vec<(String, String)>)
    ensures
        env_view(r@) == worker_env(bin@, env_view(extra@), env_view(inherited@)),
{
    let ghost inh = env_view(inherited@);
    let found = find_path(inherited);
    let mut path = bin.to_owned();
    match found {
        Some(k) => {
            if !inherited[k].1.as_str().is_empty() {
                path.append(":");
                path.append(inherited[k].1.as_str());
                proof {
                    reveal_strlit(":");
                }
            }
        },
        None => {},
    }
    assert(path@ == worker_path(bin@, inh));
    let mut env: Vec<(String, String)> = Vec::new();
    env.push(("PATH".to_owned(), path));
    let ghost head = seq![("PATH"@, worker_path(bin@, inh))];
    assert(env_view(env@) =~= head);
    for j in 0..inherited.len()
        invariant
            inh == env_view(inherited@),
            env_view(env@) == head + kept(inh.take(j as int)),
    {
        let ghost before = env_view(env@);
        assert(inh.take(j + 1).drop_last() =~= inh.take(j as int));
        assert(inh.take(j + 1).last() == pair_view(inherited@[j as int]));
        if inherited_name(inherited[j].0.as_str()) {
            env.push(copy_pair(&inherited[j]));
            assert(env_view(env@) =~= before.push(pair_view(inherited@[j as int])));
        }
    }
    assert(inh.take(inherited.len() as int) =~= inh);
    let ghost middle = env_view(env@);
    for j in 0..extra.len()
        invariant
            env_view(env@) == middle + env_view(extra@).take(j as int),
    {
        let ghost before = env_view(env@);
        env.push(copy_pair(&extra[j]));
        assert(env_view(env@) =~= before.push(pair_view(extra@[j as int])));
        assert(env_view(extra@).take(j + 1) =~= env_view(extra@).take(j as int).push(
            pair_view(extra@[j as int]),
        ));
        assert(middle + env_view(extra@).take(j + 1) =~= (middle + env_view(extra@).take(
            j as int,
        )).push(pair_view(extra@[j as int])));
    }
    assert(env_view(extra@).take(extra.len() as int) =~= env_view(extra@));
    env
}


/// Every variable kept from the inherited environment is on the allow-list.
proof fn lemma_kept_is_listed(inherited: EnvView)
    ensures
        forall|k: int| 0 <= k < kept(inherited).len() ==> is_inherited(#[trigger] kept(inherited)[k].0),
    decreases inherited.len(),
{
    if inherited.len() > 0 {
        let rest = kept(inherited.drop_last());
        lemma_kept_is_listed(inherited.drop_last());
        assert forall|k: int| 0 <= k < kept(inherited).len() implies is_inherited(
            #[trigger] kept(inherited)[k].0,
        ) by {
            if k < rest.len() {
                assert(kept(inherited)[k] == rest[k]);
            }
        }
    }
}

/// A worker sees only `PATH`, the allow-listed inherited variables and its
/// provider's extras: no other variable of this process reaches it.
pub proof fn law_only_listed_variables_reach_a_worker(
    bin: Seq<char>,
    extra: EnvView,
    inherited: EnvView,
    i: int,
)
    requires
        0 <= i < worker_env(bin, extra, inherited).len(),
    ensures
        ({
            let name = worker_env(bin, extra, inherited)[i].0;
            ||| name == "PATH"@
            ||| is_inherited(name)
            ||| exists|k: int| 0 <= k < extra.len() && #[trigger] extra[k].0 == name
        }),
{
    lemma_kept_is_listed(inherited);
    let env = worker_env(bin, extra, inherited);
    let n = kept(inherited).len();
    if i == 0 {
    } else if i <= n {
        assert(env[i] == kept(inherited)[i - 1]);
    } else {
        assert(env[i] == extra[i - 1 - n]);
    }
}

/// The toolchain's directory comes first on a worker's search path, so the
/// managed toolchain wins over anything the host has installed.
pub proof fn law_toolchain_first_on_path(bin: Seq<char>, extra: EnvView, inherited: EnvView)
    ensures
        worker_env(bin, extra, inherited)[0] == ("PATH"@, worker_path(bin, inherited)),
        has_prefix(worker_path(bin, inherited), bin),
{
    let p = worker_path(bin, inherited);
    if p != bin {
        assert(p.subrange(0, bin.len() as int) =~= bin);
    } else {
        assert(p.subrange(0, bin.len() as int) =~= bin);
    }
}


/// The only inherited variables a worker may see, besides `PATH`, are `HOME`,
/// `USER`, `LANG`, `LC_ALL`, `TMPDIR` and `TZ`.
pub proof fn law_allow_list(name: Seq<char>)
    ensures
        is_inherited(name) ==> {
            ||| name == "HOME"@
            ||| name == "USER"@
            ||| name == "LANG"@
            ||| name == "LC_ALL"@
            ||| name == "TMPDIR"@
            ||| name == "TZ"@
        },
        !is_inherited("PATH"@),
{
    reveal_strlit("PATH");
    reveal_strlit("HOME");
    reveal_strlit("USER");
    reveal_strlit("LANG");
    reveal_strlit("LC_ALL");
    reveal_strlit("TMPDIR");
    reveal_strlit("TZ");
    assert("PATH"@[0] != "HOME"@[0] && "PATH"@[0] != "USER"@[0]);
    assert("PATH"@.len() != "LC_ALL"@.len() && "PATH"@.len() != "TMPDIR"@.len()
        && "PATH"@.len() != "TZ"@.len() && "PATH"@[0] != "LANG"@[0]);
}

/// A worker gets every one of its provider's extra variables, in order, at
/// the end of its environment, and the inherited `PATH` (when non-empty) after
/// the toolchain's directory.
pub proof fn law_extras_and_search_path_are_passed(
    bin: Seq<char>,
    extra: EnvView,
    inherited: EnvView,
)
    ensures
        ({
            let env = worker_env(bin, extra, inherited);
            &&& env.len() >= extra.len() + 1
            &&& forall|k: int|
                0 <= k < extra.len() ==> env[env.len() - extra.len() + k] == #[trigger] extra[k]
        }),
        first_path(inherited) matches Some(p) ==> (p.len() > 0 ==> worker_path(bin, inherited)
            == bin + ":"@ + p),
        (first_path(inherited) is None) ==> worker_path(bin, inherited) == bin,
{
    let env = worker_env(bin, extra, inherited);
    let front = seq![("PATH"@, worker_path(bin, inherited))] + kept(inherited);
    assert forall|k: int| 0 <= k < extra.len() implies env[env.len() - extra.len() + k]
        == #[trigger] extra[k] by {
        assert(env[front.len() + k] == extra[k]);
    }
}

} // verus!
