//! The descriptor handed to probing modules for each discovered form or
//! script submission. The crawler only forwards response bodies to the
//! method-extraction collaborator and passes its descriptors along; it never
//! interprets them.

use vstd::prelude::*;

verus! {

/// One discovered submission surface: the HTTP method, the parameter
/// assignments, and the target URL.
#[derive(Debug, Clone)]
pub struct Method {
    pub name: String,
    pub parameters: Vec<String>,
    pub url: String,
}

} // verus!
