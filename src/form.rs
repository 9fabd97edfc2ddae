//! The body of a request to shorten a URL.
use vstd::prelude::*;

verus! {

/// A submitted long URL, taken as given: no normalisation, no validation.
#[derive(Debug)]
pub struct FormData {
    pub url: String,
}

} // verus!
