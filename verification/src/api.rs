//! The API facade: a configured base URL plus an optional authentication
//! context, from which the per-resource clients are obtained.
pub mod rest;

use crate::api::rest::{ExchangeAPI, MarketAPI, PairsAPI};
use vstd::prelude::*;

verus! {

/// An authentication context.  Holding one does not validate credentials;
/// `Cryptowatch::authenticated` only reports whether one was supplied.
#[derive(Debug, PartialEq, Eq)]
pub struct Auth {}

impl Default for Auth {
    fn default() -> (r: Self)
        ensures
            r == (Auth {  }),
    {
        Auth {  }
    }
}

/// The public production endpoint, used when no base URL is configured.
pub open spec fn spec_default_base_url() -> Seq<char> {
    "https://api.cryptowat.ch"@
}

/// The public production endpoint, used when no base URL is configured.
pub fn default_base_url() -> (s: String)
    ensures
        s@ == spec_default_base_url(),
{
    "https://api.cryptowat.ch".to_owned()
}

/// Entrypoint for the REST resources: a facade hands out one client per
/// resource family.
pub trait CryptowatchAPI {
    /// Get the client for the Pair resource.
    fn pairs(&self) -> PairsAPI;

    /// Get the client for the Market resource.
    fn market(&self) -> MarketAPI;

    /// Get the client for the Exchange resource.
    fn exchange(&self) -> ExchangeAPI;
}

/// The facade: a configured base URL and an optional authentication context.
/// Construction is cheap and makes no network call.
#[derive(Debug, PartialEq, Eq)]
pub struct Cryptowatch {
    pub base_url: String,
    authentication: Option<Auth>,
}

impl Cryptowatch {
    /// Whether an authentication context was supplied.
    pub closed spec fn spec_authenticated(&self) -> bool {
        self.authentication is Some
    }

    /// The configured base URL, at spec level.
    pub closed spec fn spec_base_url(&self) -> Seq<char> {
        self.base_url@
    }

    pub fn authenticated(&self) -> (r: bool)
        ensures
            r == self.spec_authenticated(),
    {
        self.authentication.is_some()
    }

    /// A facade bound to the given base URL, with or without an
    /// authentication context.  Construction is side-effect-free.
    pub fn new(base_url: String, authentication: Option<Auth>) -> (r: Self)
        ensures
            r.spec_base_url() == base_url@,
            r.spec_authenticated() == (authentication is Some),
    {
        Cryptowatch { base_url, authentication }
    }
}

impl Default for Cryptowatch {
    /// The facade bound to the public production endpoint, with no
    /// authentication context.
    fn default() -> (r: Self)
        ensures
            r.spec_base_url() == spec_default_base_url(),
            !r.spec_authenticated(),
    {
        Cryptowatch { base_url: default_base_url(), authentication: None }
    }
}

impl CryptowatchAPI for Cryptowatch {
    fn pairs(&self) -> PairsAPI {
        PairsAPI {  }
    }

    fn market(&self) -> MarketAPI {
        MarketAPI {  }
    }

    fn exchange(&self) -> ExchangeAPI {
        ExchangeAPI {  }
    }
}

} // verus!
