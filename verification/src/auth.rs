//! The API-key guard decision.
//!
//! A single static shared secret protects the HTTP surface. With no secret
//! configured the guard is disabled (development mode), and the health
//! paths always pass. The middleware around this decision lives outside the
//! library.

use vstd::prelude::*;

use crate::str_eq;

verus! {

/// Whether a request may pass: the guard is off when no key is configured,
/// health endpoints always pass, and otherwise the provided key must equal
/// the configured one exactly.
pub fn api_key_allows(configured: &str, path: &str, provided: &str) -> (r: bool)
    ensures
        r == (configured@.len() == 0 || path@ == "/api/mt5/health"@ || path@ == "/health"@
            || provided@ == configured@),
{
    if configured.is_empty() {
        return true;
    }
    if str_eq(path, "/api/mt5/health") || str_eq(path, "/health") {
        return true;
    }
    str_eq(provided, configured)
}

} // verus!
