//! Users of the service, as the login reads them.

use vstd::prelude::*;

verus! {

/// A user row: the fields that the login reads.
#[derive(Debug)]
pub struct Usuario {
    pub id: i32,
    pub nickname: Option<String>,
    pub nombre: Option<String>,
    pub password: Option<String>,
    pub lvl: Option<i32>,
}

} // verus!
