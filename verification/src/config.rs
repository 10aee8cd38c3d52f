//! The configuration of the farm.

use crate::domain::cow::{Cow, CowView};
use crate::domain::herd::cow_views;
use crate::errors::Error;
use crate::text;
use vstd::prelude::*;

verus! {

/// Where the farm runs.
#[derive(Debug, Clone, Copy, PartialEq, Eq, Structural, Hash)]
pub enum Environment {
    Production,
    Development,
}

/// The environment that `text` names.
pub open spec fn environment_named(text: Seq<char>) -> Option<Environment> {
    if text == "production"@ {
        Some(Environment::Production)
    } else if text == "development"@ {
        Some(Environment::Development)
    } else {
        None
    }
}

impl Environment {
    /// The environment that `value` names: `production` or `development`.
    pub fn parse(value: &str) -> (res: Result<Environment, Error>)
        ensures
            match res {
                Ok(environment) => environment_named(value@) == Some(environment),
                Err(e) => environment_named(value@) is None && e == Error::InvalidEnvironment,
            },
    {
        if text::str_eq(value, "production") {
            Ok(Environment::Production)
        } else if text::str_eq(value, "development") {
            Ok(Environment::Development)
        } else {
            Err(Error::InvalidEnvironment)
        }
    }
}

/// The configuration as plain values.
pub struct ConfigView {
    pub http_address: Seq<char>,
    pub grpc_address: Seq<char>,
    pub environment: Environment,
    pub database_path: Seq<char>,
    pub cows: Seq<CowView>,
}

/// The configuration of the values given, or the reason why they make
/// none: neither address nor the path may be empty.
pub open spec fn config_of(values: ConfigView) -> Result<ConfigView, Error> {
    if values.http_address.len() == 0 {
        Err(Error::EmptyHttpAddress)
    } else if values.grpc_address.len() == 0 {
        Err(Error::EmptyGrpcAddress)
    } else if values.database_path.len() == 0 {
        Err(Error::EmptyDatabasePath)
    } else {
        Ok(values)
    }
}

/// Where the farm listens, where it runs, where it keeps its cows and which
/// cows it starts with.
#[derive(Debug, PartialEq, Eq)]
pub struct Config {
    http_address: String,
    grpc_address: String,
    environment: Environment,
    database_path: String,
    cows: Vec<Cow>,
}

impl View for Config {
    type V = ConfigView;

    closed spec fn view(&self) -> ConfigView {
        ConfigView {
            http_address: self.http_address@,
            grpc_address: self.grpc_address@,
            environment: self.environment,
            database_path: self.database_path@,
            cows: cow_views(self.cows@),
        }
    }
}

impl Config {
    #[verifier::type_invariant]
    spec fn valid(self) -> bool {
        self.http_address@.len() > 0 && self.grpc_address@.len() > 0 && self.database_path@.len()
            > 0
    }

    /// The configuration of the values given. Refused when an address or
    /// the path is empty.
    pub fn new(
        http_address: &str,
        grpc_address: &str,
        environment: Environment,
        database_path: &str,
        cows: Vec<Cow>,
    ) -> (res: Result<Config, Error>)
        ensures
            match res {
                Ok(config) => config_of(
                    ConfigView {
                        http_address: http_address@,
                        grpc_address: grpc_address@,
                        environment,
                        database_path: database_path@,
                        cows: cow_views(cows@),
                    },
                ) == Ok::<ConfigView, Error>(config@),
                Err(e) => config_of(
                    ConfigView {
                        http_address: http_address@,
                        grpc_address: grpc_address@,
                        environment,
                        database_path: database_path@,
                        cows: cow_views(cows@),
                    },
                ) == Err::<ConfigView, Error>(e),
            },
    {
        if http_address.is_empty() {
            return Err(Error::EmptyHttpAddress);
        }
        if grpc_address.is_empty() {
            return Err(Error::EmptyGrpcAddress);
        }
        if database_path.is_empty() {
            return Err(Error::EmptyDatabasePath);
        }
        Ok(
            Config {
                http_address: http_address.to_owned(),
                grpc_address: grpc_address.to_owned(),
                environment,
                database_path: database_path.to_owned(),
                cows,
            },
        )
    }

    /// The address for HTTP, which is not empty.
    pub fn http_address(&self) -> (http_address: &str)
        ensures
            http_address@ == self@.http_address,
            http_address@.len() > 0,
    {
        proof {
            use_type_invariant(self);
        }
        self.http_address.as_str()
    }

    /// The address for gRPC, which is not empty.
    pub fn grpc_address(&self) -> (grpc_address: &str)
        ensures
            grpc_address@ == self@.grpc_address,
            grpc_address@.len() > 0,
    {
        proof {
            use_type_invariant(self);
        }
        self.grpc_address.as_str()
    }

    pub fn environment(&self) -> (environment: &Environment)
        ensures
            *environment == self@.environment,
    {
        &self.environment
    }

    /// The path of the database, which is not empty.
    pub fn database_path(&self) -> (database_path: &str)
        ensures
            database_path@ == self@.database_path,
            database_path@.len() > 0,
    {
        proof {
            use_type_invariant(self);
        }
        self.database_path.as_str()
    }

    /// The cows that the farm starts with.
    pub fn cows(&self) -> (cows: &[Cow])
        ensures
            cow_views(cows@) == self@.cows,
    {
        self.cows.as_slice()
    }
}

} // verus!
