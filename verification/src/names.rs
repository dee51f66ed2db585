//! Well-known names on the bus.

use vstd::prelude::*;

verus! {

/// The bus name the first-party Node.js provider module claims.
pub const NODEJS_PROVIDER: &'static str = "ai.tinyhumans.runtime.nodejs.Provider";

/// The bus name the first-party Python provider module claims.
pub const PYTHON_PROVIDER: &'static str = "ai.tinyhumans.runtime.python.Provider";

/// The interface every provider module serves.
pub const PROVIDER_INTERFACE: &'static str = "ai.tinyhumans.runtime.Provider";

} // verus!
