use vstd::prelude::*;
use crate::config::{is_default_config, Config};

verus! {

/// A service of one API family, built from credentials and a configuration
/// that says which host the family lives on.
pub trait Binance: Sized {
    /// Whether this service holds these credentials and the host and timeout
    /// that this configuration gives its family.
    spec fn built_from(&self, api_key: Option<String>, secret_key: Option<String>, config: Config) -> bool;

    /// A service with the given credentials and the default configuration.
    fn new(api_key: Option<String>, secret_key: Option<String>) -> (r: Self)
        ensures
            exists|c: Config| is_default_config(c) && #[trigger] r.built_from(api_key, secret_key, c),
    {
        let config = Config::default();
        let r = Self::new_with_config(api_key, secret_key, &config);
        assert(is_default_config(config) && r.built_from(api_key, secret_key, config));
        r
    }

    /// A service with the given credentials and configuration.
    fn new_with_config(api_key: Option<String>, secret_key: Option<String>, config: &Config) -> (r: Self)
        ensures
            r.built_from(api_key, secret_key, *config),
    ;
}

} // verus!
