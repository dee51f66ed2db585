//! The module configuration a host supplies at load time.
//!
//! One decision lives here: which languages this router routes, and to which bus
//! names. It is configuration rather than a compiled-in table, because adding a
//! language should be loading another module rather than rebuilding this one.
//! A host that supplies nothing gets the first-party providers.

use vstd::prelude::*;

use crate::language::{Language, NODEJS_ID, PYTHON_ID};
use crate::names::{NODEJS_PROVIDER, PYTHON_PROVIDER};
use crate::text::{join, join_path, trim, trim_str};

verus! {

/// One language and the bus name its provider claims.
#[derive(Debug, Clone)]
pub struct ProviderRoute {
    /// The routing key, e.g. `nodejs`.
    pub language: Language,
    /// The well-known bus name the provider module claims.
    pub bus_name: String,
}

impl ProviderRoute {
    /// Route `language` to the module claiming `bus_name`.
    pub fn new(language: Language, bus_name: &str) -> (r: Self)
        ensures
            r.language@ == language@,
            r.bus_name@ == bus_name@,
    {
        ProviderRoute { language, bus_name: bus_name.to_owned() }
    }
}

impl PartialEq for ProviderRoute {
    fn eq(&self, other: &Self) -> (r: bool) {
        self.language == other.language && self.bus_name == other.bus_name
    }
}

impl vstd::std_specs::cmp::PartialEqSpecImpl for ProviderRoute {
    open spec fn obeys_eq_spec() -> bool {
        true
    }

    open spec fn eq_spec(&self, other: &Self) -> bool {
        self.language@ == other.language@ && self.bus_name@ == other.bus_name@
    }
}

impl Eq for ProviderRoute {}

/// Routes as the contracts see them: language and bus name.
pub open spec fn routes_view(routes: Seq<ProviderRoute>) -> Seq<(Seq<char>, Seq<char>)> {
    routes.map_values(|r: ProviderRoute| (r.language@, r.bus_name@))
}

/// The first-party providers, in the order they are routed.
pub open spec fn first_party_routes() -> Seq<(Seq<char>, Seq<char>)> {
    seq![(NODEJS_ID@, NODEJS_PROVIDER@), (PYTHON_ID@, PYTHON_PROVIDER@)]
}

/// What the host told this module at load time.
#[derive(Debug, Clone)]
pub struct ModuleConfig {
    /// The languages to route, and where.
    pub providers: Vec<ProviderRoute>,
    /// Where worker harnesses are written, or empty for a directory under the
    /// platform cache.
    pub harness_dir: String,
}

/// The configuration document as it arrives, each field present or absent.
#[derive(Debug, Clone)]
pub struct WireConfig {
    /// The `providers` field, if the document has one.
    pub providers: Option<Vec<ProviderRoute>>,
    /// The `harness_dir` field, if the document has one.
    pub harness_dir: Option<String>,
}

/// The configuration a host that configures nothing gets: the first-party
/// providers, and harnesses under the platform cache.
pub open spec fn is_default_config(c: ModuleConfig) -> bool {
    &&& routes_view(c.providers@) == first_party_routes()
    &&& c.harness_dir@.len() == 0
}

/// A configuration as the contracts see it: its routes and harness directory.
pub open spec fn config_view(c: ModuleConfig) -> (Seq<(Seq<char>, Seq<char>)>, Seq<char>) {
    (routes_view(c.providers@), c.harness_dir@)
}

/// What a configuration document decodes to: each field the document gives,
/// and the default's value for each field it leaves out; the default itself
/// for no document at all.
pub open spec fn decoded(document: Option<WireConfig>) -> (
    Seq<(Seq<char>, Seq<char>)>,
    Seq<char>,
) {
    match document {
        None => (first_party_routes(), Seq::empty()),
        Some(w) => (
            match w.providers {
                Some(p) => routes_view(p@),
                None => first_party_routes(),
            },
            match w.harness_dir {
                Some(h) => h@,
                None => Seq::empty(),
            },
        ),
    }
}

/// The first-party routes.
fn first_party_providers() -> (r: Vec<ProviderRoute>)
    ensures
        routes_view(r@) == first_party_routes(),
{
    let mut routes = Vec::new();
    routes.push(ProviderRoute::new(Language::nodejs(), NODEJS_PROVIDER));
    routes.push(ProviderRoute::new(Language::python(), PYTHON_PROVIDER));
    assert(routes_view(routes@) =~= first_party_routes());
    routes
}

impl Default for ModuleConfig {
    /// The first-party providers, and the platform cache for harnesses.
    fn default() -> (r: Self)
        ensures
            is_default_config(r),
    {
        ModuleConfig { providers: first_party_providers(), harness_dir: String::new() }
    }
}

/// The directory under a cache root where harnesses are written.
pub open spec fn harness_dir_under(cache: Seq<char>) -> Seq<char> {
    join_path(join_path(cache, "tinyruntime"@), "harnesses"@)
}

impl ModuleConfig {
    /// The configuration a configuration document decodes to.
    ///
    /// A host that configures nothing supplies either the empty object or
    /// `null` (`None` here); both decode to the first-party providers and the
    /// platform cache. A field the document leaves out takes its value from
    /// that default; a field it gives is taken as given.
    pub fn from_document(document: Option<WireConfig>) -> (r: Self)
        ensures
            config_view(r) == decoded(document),
    {
        match document {
            None => ModuleConfig::default(),
            Some(wire) => {
                let providers = match wire.providers {
                    Some(p) => p,
                    None => first_party_providers(),
                };
                let harness_dir = match wire.harness_dir {
                    Some(h) => h,
                    None => String::new(),
                };
                ModuleConfig { providers, harness_dir }
            },
        }
    }

    /// Where worker harnesses should be written, given the platform cache
    /// directory (`None` where the platform reports none).
    ///
    /// A configured directory is used as given, less surrounding whitespace.
    /// Otherwise harnesses go under the cache directory, or under `.` when
    /// there is none.
    pub fn harness_root_in(&self, cache_dir: Option<String>) -> (r: String)
        ensures
            trim(self.harness_dir@).len() > 0 ==> r@ == trim(self.harness_dir@),
            trim(self.harness_dir@).len() == 0 ==> r@ == harness_dir_under(
                match cache_dir {
                    Some(c) => c@,
                    None => "."@,
                },
            ),
    {
        let configured = trim_str(self.harness_dir.as_str());
        if !configured.as_str().is_empty() {
            return configured;
        }
        let base = match cache_dir {
            Some(c) => c,
            None => ".".to_owned(),
        };
        let app = join(base.as_str(), "tinyruntime");
        join(app.as_str(), "harnesses")
    }

    /// Where worker harnesses should be written: the configured directory, or
    /// one under the platform cache.
    pub fn harness_root(&self) -> (r: String)
        ensures
            trim(self.harness_dir@).len() > 0 ==> r@ == trim(self.harness_dir@),
            trim(self.harness_dir@).len() == 0 ==> exists|c: Seq<char>|
                r@ == #[trigger] harness_dir_under(c),
    {
        let cache = platform_cache_dir();
        let ghost base = match &cache {
            Some(c) => c@,
            None => "."@,
        };
        let r = self.harness_root_in(cache);
        assert(trim(self.harness_dir@).len() == 0 ==> r@ == harness_dir_under(base));
        r
    }
}

/// The user's cache directory, from `dirs::cache_dir`.
///
/// What it returns depends on the environment (`$XDG_CACHE_HOME` or `$HOME`
/// on Linux), so nothing is stated of it. The path is handed on as UTF-8
/// text; bytes that are not UTF-8 are replaced.
#[verifier::external_body]
pub(crate) fn platform_cache_dir() -> Option<String> {
    match dirs::cache_dir() {
        Some(path) => Some(path.to_string_lossy().into_owned()),
        None => None,
    }
}

/// `null` and the empty object decode to the same configuration, and it is
/// the default one.
pub proof fn law_null_and_empty_decode_alike()
    ensures
        decoded(None) == decoded(Some(WireConfig { providers: None, harness_dir: None })),
        decoded(None).0 == first_party_routes(),
        decoded(None).1.len() == 0,
{
}


/// A field the document gives is taken as given, whatever the other field
/// holds; a field it leaves out takes the value `null` would give.
pub proof fn law_given_fields_are_taken_as_given(w: WireConfig)
    ensures
        w.harness_dir matches Some(h) ==> decoded(Some(w)).1 == h@,
        w.providers matches Some(p) ==> decoded(Some(w)).0 == routes_view(p@),
        w.harness_dir is None ==> decoded(Some(w)).1 == decoded(None).1,
        w.providers is None ==> decoded(Some(w)).0 == decoded(None).0,
{
}

/// Each field decodes on its own: changing one field of a document never
/// changes what the other decodes to.
pub proof fn law_fields_decode_independently(
    w: WireConfig,
    providers: Option<Vec<ProviderRoute>>,
    harness_dir: Option<String>,
)
    ensures
        decoded(Some(w)).1 == decoded(Some(WireConfig { providers, harness_dir: w.harness_dir })).1,
        decoded(Some(w)).0 == decoded(Some(WireConfig { providers: w.providers, harness_dir })).0,
{
}

} // verus!
