//! Provider routing: which module answers for which language, and whether its
//! contract is one this router can speak.

use vstd::prelude::*;

use crate::error::Error;
use crate::language::{Language, law_case_does_not_matter, normalise};
use crate::text::{decimal, decimal_string, lowercase};

verus! {

/// The provider contract this router speaks, as `(major, minor)`.
pub const CONTRACT_VERSION: (u32, u32) = (1, 0);

/// What a provider module says about itself.
#[derive(Debug)]
pub struct ProviderDescriptor {
    /// The language it provides.
    pub language: Language,
    /// A human-readable name.
    pub display_name: String,
    /// The provider's own version.
    pub version: String,
    /// The contract version it speaks, as `(major, minor)`.
    pub contract_version: (u32, u32),
}

impl ProviderDescriptor {
    /// A descriptor speaking this build's contract.
    pub fn new(language: Language, display_name: &str, version: &str) -> (r: Self)
        ensures
            r.language@ == language@,
            r.display_name@ == display_name@,
            r.version@ == version@,
            r.contract_version == CONTRACT_VERSION,
    {
        ProviderDescriptor {
            language,
            display_name: display_name.to_owned(),
            version: version.to_owned(),
            contract_version: CONTRACT_VERSION,
        }
    }
}

/// A provider speaking `found` can serve this router: the major versions agree.
pub open spec fn contract_compatible(found: (u32, u32)) -> bool {
    found.0 == CONTRACT_VERSION.0
}

/// Refuses a provider whose contract's major version differs from this build's.
pub fn verify_contract(language: &Language, descriptor: &ProviderDescriptor) -> (r: Result<
    (),
    Error,
>)
    ensures
        r is Ok <==> contract_compatible(descriptor.contract_version),
        r matches Err(e) ==> (e matches Error::ProviderContract { language: l, expected, found }
            && l@ == language@ && expected == CONTRACT_VERSION && found
            == descriptor.contract_version),
{
    if descriptor.contract_version.0 == CONTRACT_VERSION.0 {
        Ok(())
    } else {
        Err(
            Error::ProviderContract {
                language: language.clone(),
                expected: CONTRACT_VERSION,
                found: descriptor.contract_version,
            },
        )
    }
}


/// One row of the language listing: whether the language can be used, and if
/// not, why.
#[derive(Debug, Clone)]
pub struct LanguageStatus {
    /// The language listed.
    pub language: Language,
    /// Whether its provider answered on a compatible contract.
    pub available: bool,
    /// The provider's human-readable name, where it answered.
    pub display_name: Option<String>,
    /// Why the language is unavailable, where it is.
    pub detail: Option<String>,
}

/// The reason given for a provider on an incompatible contract.
pub open spec fn contract_detail(found: (u32, u32)) -> Seq<char> {
    "provider speaks contract "@ + decimal(found.0 as nat) + "."@ + decimal(found.1 as nat)
        + ", this router speaks "@ + decimal(CONTRACT_VERSION.0 as nat) + "."@ + decimal(
        CONTRACT_VERSION.1 as nat,
    )
}

/// `row` is the listing row for `language` whose provider, asked to describe
/// itself, gave `described`.
pub open spec fn is_status_row(
    row: LanguageStatus,
    language: Seq<char>,
    described: Result<ProviderDescriptor, String>,
) -> bool {
    &&& row.language@ == language
    &&& match described {
        Err(reason) => {
            &&& !row.available
            &&& row.display_name is None
            &&& row.detail matches Some(d) && d@ == reason@
        },
        Ok(d) => {
            &&& row.available == contract_compatible(d.contract_version)
            &&& row.display_name matches Some(n) && n@ == d.display_name@
            &&& contract_compatible(d.contract_version) ==> row.detail is None
            &&& !contract_compatible(d.contract_version) ==> (row.detail matches Some(t) && t@
                == contract_detail(d.contract_version))
        },
    }
}

/// `major.minor`.
fn version_text(version: (u32, u32)) -> (r: String)
    ensures
        r@ == decimal(version.0 as nat) + "."@ + decimal(version.1 as nat),
{
    let mut s = decimal_string(version.0 as u64);
    s.append(".");
    let minor = decimal_string(version.1 as u64);
    s.append(minor.as_str());
    s
}

/// The listing row for `language`, given what asking its provider to describe
/// itself gave: a descriptor, or the reason it could not answer.
///
/// A provider that is down, or on a contract of another major version, is a
/// row marked unavailable with its reason, not an error: one unloaded provider
/// must not hide the languages that work.
pub fn status_of(language: &Language, described: Result<ProviderDescriptor, String>) -> (r:
    LanguageStatus)
    ensures
        is_status_row(r, language@, described),
{
    match described {
        Err(reason) => LanguageStatus {
            language: language.clone(),
            available: false,
            display_name: None,
            detail: Some(reason),
        },
        Ok(descriptor) => {
            let found = descriptor.contract_version;
            if verify_contract(language, &descriptor).is_ok() {
                LanguageStatus {
                    language: language.clone(),
                    available: true,
                    display_name: Some(descriptor.display_name),
                    detail: None,
                }
            } else {
                let mut detail = "provider speaks contract ".to_owned();
                let provider_version = version_text(found);
                detail.append(provider_version.as_str());
                detail.append(", this router speaks ");
                let router_version = version_text(CONTRACT_VERSION);
                detail.append(router_version.as_str());
                proof {
                    assert(detail@ =~= contract_detail(found));
                }
                LanguageStatus {
                    language: language.clone(),
                    available: false,
                    display_name: Some(descriptor.display_name),
                    detail: Some(detail),
                }
            }
        },
    }
}

impl ProviderDescriptor {
    /// A descriptor saying the same as this one.
    pub fn copy(&self) -> (r: Self)
        ensures
            r.language@ == self.language@,
            r.display_name@ == self.display_name@,
            r.version@ == self.version@,
            r.contract_version == self.contract_version,
    {
        ProviderDescriptor {
            language: self.language.clone(),
            display_name: self.display_name.clone(),
            version: self.version.clone(),
            contract_version: self.contract_version,
        }
    }
}

/// A copy of a provider's answer.
fn copy_described(described: &Result<ProviderDescriptor, String>) -> (r: Result<
    ProviderDescriptor,
    String,
>)
    ensures
        forall|row: LanguageStatus, language: Seq<char>|
            is_status_row(row, language, r) == #[trigger] is_status_row(row, language, *described),
{
    match described {
        Ok(d) => Ok(d.copy()),
        Err(reason) => Err(reason.clone()),
    }
}

/// One language, the bus name its provider claims, and the handle that reaches
/// that provider.
pub struct Route<P> {
    /// The routing key.
    pub language: Language,
    /// The well-known bus name the provider module claims.
    pub bus_name: String,
    /// How to reach the provider.
    pub provider: P,
}

/// A route as the contracts see it: language, bus name, provider handle.
pub type RouteView<P> = (Seq<char>, Seq<char>, P);

/// No language is routed twice.
pub open spec fn distinct_languages<P>(v: Seq<RouteView<P>>) -> bool {
    forall|i: int, j: int|
        0 <= i < v.len() && 0 <= j < v.len() && i != j ==> #[trigger] v[i].0 != #[trigger] v[j].0
}

/// `language` is routed somewhere in `v`.
pub open spec fn is_routed<P>(v: Seq<RouteView<P>>, language: Seq<char>) -> bool {
    exists|i: int| 0 <= i < v.len() && #[trigger] v[i].0 == language
}

/// Where `language` is routed in `v`, if it is.
pub open spec fn route_index<P>(v: Seq<RouteView<P>>, language: Seq<char>) -> int {
    choose|i: int| 0 <= i < v.len() && #[trigger] v[i].0 == language
}

/// The bus name and provider `language` is routed to, if any.
pub open spec fn lookup<P>(v: Seq<RouteView<P>>, language: Seq<char>) -> Option<(Seq<char>, P)> {
    if is_routed(v, language) {
        let i = route_index(v, language);
        Some((v[i].1, v[i].2))
    } else {
        None
    }
}

/// The routes after registering `language` at `bus_name` with `provider`: an
/// existing route for the language is replaced where it stands; a new language
/// is appended, so languages keep the order they were first registered in.
pub open spec fn registered<P>(
    v: Seq<RouteView<P>>,
    language: Seq<char>,
    bus_name: Seq<char>,
    provider: P,
) -> Seq<RouteView<P>> {
    if is_routed(v, language) {
        v.update(route_index(v, language), (language, bus_name, provider))
    } else {
        v.push((language, bus_name, provider))
    }
}

/// The routed languages, in order.
pub open spec fn languages_of<P>(v: Seq<RouteView<P>>) -> Seq<Seq<char>> {
    v.map_values(|r: RouteView<P>| r.0)
}

/// The routing table: one provider per language.
pub struct Registry<P> {
    routes: Vec<Route<P>>,
}

impl<P> Registry<P> {
    #[verifier::type_invariant]
    spec fn no_language_twice(self) -> bool {
        distinct_languages(self@)
    }
}

/// The routes as the contracts see them.
pub open spec fn view_of<P>(routes: Seq<Route<P>>) -> Seq<RouteView<P>> {
    routes.map_values(|r: Route<P>| (r.language@, r.bus_name@, r.provider))
}

impl<P> View for Registry<P> {
    type V = Seq<RouteView<P>>;

    closed spec fn view(&self) -> Seq<RouteView<P>> {
        view_of(self.routes@)
    }
}

/// Where `language` is routed in `routes`, found by scanning them in order.
fn position_of<P>(routes: &Vec<Route<P>>, language: &Language) -> (r: Option<usize>)
    ensures
        r matches Some(i) ==> i < routes@.len() && view_of(routes@)[i as int].0 == language@,
        r is None ==> !is_routed(view_of(routes@), language@),
{
    let n = routes.len();
    for i in 0..n
        invariant
            n == routes@.len(),
            forall|k: int| 0 <= k < i ==> #[trigger] view_of(routes@)[k].0 != language@,
    {
        if routes[i].language == *language {
            return Some(i);
        }
    }
    None
}

impl<P> Registry<P> {
    /// A registry routing nothing.
    pub fn new() -> (r: Self)
        ensures
            r@ == Seq::<RouteView<P>>::empty(),
    {
        let r = Registry { routes: Vec::new() };
        assert(r@ =~= Seq::<RouteView<P>>::empty());
        r
    }

    /// Routes `language` to the module claiming `bus_name`, reached through
    /// `provider`. Registering a language again replaces its route in place.
    pub fn register(&mut self, language: &Language, bus_name: &str, provider: P)
        ensures
            final(self)@ == registered(old(self)@, language@, bus_name@, provider),
            distinct_languages(old(self)@),
            distinct_languages(final(self)@),
    {
        proof {
            use_type_invariant(&*self);
        }
        let ghost before = self@;
        let route = Route { language: language.clone(), bus_name: bus_name.to_owned(), provider };
        let mut routes: Vec<Route<P>> = Vec::new();
        std::mem::swap(&mut routes, &mut self.routes);
        assert(view_of(routes@) == before);
        match position_of(&routes, language) {
            Some(i) => {
                proof {
                    let j = route_index(before, language@);
                    assert(before[j].0 == language@);
                    assert(before[i as int].0 == language@);
                }
                routes.set(i, route);
                assert(view_of(routes@) =~= before.update(i as int, (language@, bus_name@, provider)));
            },
            None => {
                routes.push(route);
                assert(view_of(routes@) =~= before.push((language@, bus_name@, provider)));
            },
        }
        self.routes = routes;
    }

    /// How many languages are routed.
    pub fn len(&self) -> (r: usize)
        ensures
            r == self@.len(),
    {
        self.routes.len()
    }

    /// Whether no language is routed.
    pub fn is_empty(&self) -> (r: bool)
        ensures
            r == (self@.len() == 0),
    {
        self.routes.len() == 0
    }

    /// The routed languages, in the order they were first registered.
    pub fn languages(&self) -> (r: Vec<Language>)
        ensures
            r@.map_values(|l: Language| l@) == languages_of(self@),
    {
        let mut out: Vec<Language> = Vec::new();
        for i in 0..self.routes.len()
            invariant
                out@.len() == i,
                forall|k: int| 0 <= k < i ==> (#[trigger] out@[k])@ == self@[k].0,
                self.routes.len() == self@.len(),
        {
            let l = self.routes[i].language.clone();
            assert(self@[i as int].0 == self.routes@[i as int].language@);
            out.push(l);
        }
        assert(out@.map_values(|l: Language| l@) =~= languages_of(self@));
        out
    }

    /// The language listing: one row per routed language, in registration
    /// order, never an error. `described[i]` is what the provider of the `i`-th
    /// routed language answered when asked to describe itself.
    pub fn statuses_of(&self, described: &Vec<Result<ProviderDescriptor, String>>) -> (r: Vec<
        LanguageStatus,
    >)
        requires
            described@.len() == self@.len(),
        ensures
            r@.len() == self@.len(),
            forall|i: int|
                0 <= i < r@.len() ==> is_status_row(#[trigger] r@[i], self@[i].0, described@[i]),
    {
        let mut rows: Vec<LanguageStatus> = Vec::new();
        for i in 0..self.routes.len()
            invariant
                described@.len() == self@.len(),
                self.routes.len() == self@.len(),
                rows@.len() == i,
                forall|k: int|
                    0 <= k < i ==> is_status_row(#[trigger] rows@[k], self@[k].0, described@[k]),
        {
            assert(self@[i as int].0 == self.routes@[i as int].language@);
            let answer = copy_described(&described[i]);
            rows.push(status_of(&self.routes[i].language, answer));
        }
        rows
    }

    /// The provider answering for `language`.
    ///
    /// A request naming no language is refused rather than defaulted; a
    /// language with no route is refused as unknown.
    pub fn provider(&self, language: &Language) -> (r: Result<&P, Error>)
        ensures
            language@.len() == 0 ==> r matches Err(Error::LanguageMissing),
            language@.len() > 0 && lookup(self@, language@) is None ==> (r matches Err(
                Error::UnknownLanguage(l),
            ) && l@ == language@),
            language@.len() > 0 ==> (lookup(self@, language@) matches Some(found) ==> (r matches Ok(
                p,
            ) && *p == found.1)),
    {
        proof {
            use_type_invariant(self);
        }
        if language.is_empty() {
            return Err(Error::LanguageMissing);
        }
        match position_of(&self.routes, language) {
            Some(i) => Ok(&self.routes[i].provider),
            None => Err(Error::UnknownLanguage(language.clone())),
        }
    }
}


/// Re-registering a language keeps every language listed once, where it first
/// stood; registering a new one appends it, so languages are reported in the
/// order they were first registered.
pub proof fn law_register_keeps_order<P>(
    v: Seq<RouteView<P>>,
    language: Seq<char>,
    bus_name: Seq<char>,
    provider: P,
)
    requires
        distinct_languages(v),
    ensures
        distinct_languages(registered(v, language, bus_name, provider)),
        languages_of(registered(v, language, bus_name, provider)) == (if is_routed(v, language) {
            languages_of(v)
        } else {
            languages_of(v).push(language)
        }),
        registered(v, language, bus_name, provider).len() == v.len() + (if is_routed(
            v,
            language,
        ) {
            0int
        } else {
            1int
        }),
{
    let w = registered(v, language, bus_name, provider);
    if is_routed(v, language) {
        let i = route_index(v, language);
        assert(languages_of(w) =~= languages_of(v));
        assert forall|a: int, b: int|
            0 <= a < w.len() && 0 <= b < w.len() && a != b implies #[trigger] w[a].0
            != #[trigger] w[b].0 by {
            assert(w[a].0 == v[a].0);
            assert(w[b].0 == v[b].0);
        }
    } else {
        assert(languages_of(w) =~= languages_of(v).push(language));
        assert forall|a: int, b: int|
            0 <= a < w.len() && 0 <= b < w.len() && a != b implies #[trigger] w[a].0
            != #[trigger] w[b].0 by {
            if a < v.len() && b < v.len() {
                assert(w[a].0 == v[a].0);
                assert(w[b].0 == v[b].0);
            } else if a < v.len() {
                assert(w[a].0 == v[a].0);
            } else {
                assert(w[b].0 == v[b].0);
            }
        }
    }
}

/// After registering a language, looking it up answers with exactly what was
/// registered.
pub proof fn law_lookup_after_register<P>(
    v: Seq<RouteView<P>>,
    language: Seq<char>,
    bus_name: Seq<char>,
    provider: P,
)
    requires
        distinct_languages(v),
    ensures
        lookup(registered(v, language, bus_name, provider), language) == Some((bus_name, provider)),
{
    let w = registered(v, language, bus_name, provider);
    law_register_keeps_order(v, language, bus_name, provider);
    let k = if is_routed(v, language) {
        route_index(v, language)
    } else {
        v.len() as int
    };
    assert(w[k].0 == language);
    let j = route_index(w, language);
    assert(w[j].0 == language);
}

/// Registering one language leaves every other language's route as it was.
pub proof fn law_register_leaves_other_languages<P>(
    v: Seq<RouteView<P>>,
    language: Seq<char>,
    bus_name: Seq<char>,
    provider: P,
    other: Seq<char>,
)
    requires
        distinct_languages(v),
        other != language,
    ensures
        lookup(registered(v, language, bus_name, provider), other) == lookup(v, other),
{
    let w = registered(v, language, bus_name, provider);
    law_register_keeps_order(v, language, bus_name, provider);
    if is_routed(v, other) {
        let i = route_index(v, other);
        assert(w[i] == v[i]);
        let j = route_index(w, other);
        assert(w[j].0 == other);
        assert(w[j] == v[j]);
    }
    if is_routed(w, other) {
        let j = route_index(w, other);
        assert(w[j] == v[j]);
    }
}


/// A host that spells a language in different letter case reaches the same
/// route: languages are looked up by their normal form.
pub proof fn law_lookup_ignores_letter_case<P>(
    v: Seq<RouteView<P>>,
    spelled: Seq<char>,
    other: Seq<char>,
)
    requires
        lowercase(spelled) == lowercase(other),
    ensures
        lookup(v, normalise(spelled)) == lookup(v, normalise(other)),
{
    law_case_does_not_matter(spelled, other);
}


/// The contract gate compares major versions only: a provider whose major
/// version is above or below this build's is refused, and one on this build's
/// major version is accepted whatever its minor version.
pub proof fn law_contract_gate_is_major_equality(found: (u32, u32), minor: u32)
    ensures
        found.0 < CONTRACT_VERSION.0 ==> !contract_compatible(found),
        found.0 > CONTRACT_VERSION.0 ==> !contract_compatible(found),
        contract_compatible((CONTRACT_VERSION.0, minor)),
        contract_compatible(found) ==> found.0 == CONTRACT_VERSION.0,
{
}


/// A listing row is available exactly when the provider answered and its
/// major contract version is this build's; a provider that could not answer
/// is a row carrying its reason, never a missing row or an error.
pub proof fn law_rows_are_available_only_on_a_matching_contract(
    row: LanguageStatus,
    language: Seq<char>,
    described: Result<ProviderDescriptor, String>,
)
    requires
        is_status_row(row, language, described),
    ensures
        row.language@ == language,
        row.available <==> (described matches Ok(d) && d.contract_version.0
            == CONTRACT_VERSION.0),
        described matches Err(reason) ==> (row.detail matches Some(t) && t@ == reason@),
        row.available ==> row.detail is None,
        !row.available ==> row.detail is Some,
{
}

} // verus!
