//! Why a routing request was refused.

use vstd::prelude::*;

use crate::language::Language;

verus! {

/// A refusal from the router.
#[derive(Debug)]
pub enum Error {
    /// The request named no language at all.
    LanguageMissing,
    /// No provider is registered for this language.
    UnknownLanguage(Language),
    /// The provider speaks a contract whose major version differs from ours.
    ProviderContract {
        /// The language the provider was asked about.
        language: Language,
        /// The contract version this router speaks.
        expected: (u32, u32),
        /// The contract version the provider reported.
        found: (u32, u32),
    },
}

} // verus!
