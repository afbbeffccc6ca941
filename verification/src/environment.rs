//! Build-mode classification and frontend delivery-strategy selection.

use vstd::prelude::*;
use crate::text::str_eq;

verus! {

/// The build mode of the running process, fixed at compile time.
#[derive(Clone, Copy, PartialEq, Eq, Structural, Debug)]
pub enum Environment {
    Development,
    Production,
}

/// How the frontend is produced: a source-watch dev server, an extracted
/// native executable, or an extracted script driven by a host runtime.
#[derive(Clone, Copy, PartialEq, Eq, Structural, Debug)]
pub enum DeliveryStrategy {
    DevServer,
    NativeBinary,
    HostedScript,
}

/// Classifies the build: Development when the build carries debug
/// assertions, Production otherwise. The flag is fixed at compile time;
/// the caller passes it in.
pub fn get_enviroment(debug_build: bool) -> (env: Environment)
    ensures
        env == (if debug_build {
            Environment::Development
        } else {
            Environment::Production
        }),
{
    if debug_build {
        Environment::Development
    } else {
        Environment::Production
    }
}

/// The lower-case name of a build mode.
pub fn environment_str(env: &Environment) -> (r: &'static str)
    ensures
        match env {
            Environment::Development => r@ == "development"@,
            Environment::Production => r@ == "production"@,
        },
{
    match env {
        Environment::Development => "development",
        Environment::Production => "production",
    }
}

/// The build mode a name denotes: `production` names Production; every
/// other name falls back to Development.
pub fn environment_from_str(s: &str) -> (env: Environment)
    ensures
        env == (if s@ == "production"@ {
            Environment::Production
        } else {
            Environment::Development
        }),
{
    if str_eq(s, "production") {
        Environment::Production
    } else {
        Environment::Development
    }
}

/// The strategy that a given build mode and compiled-frontend flag select.
pub open spec fn strategy_of(env: Environment, compiled_frontend: bool) -> DeliveryStrategy {
    match env {
        Environment::Development => DeliveryStrategy::DevServer,
        Environment::Production => if compiled_frontend {
            DeliveryStrategy::NativeBinary
        } else {
            DeliveryStrategy::HostedScript
        },
    }
}

/// Selects the frontend delivery strategy from the build mode and the
/// compile-time "compiled frontend" flag.
pub fn strategy(env: Environment, compiled_frontend: bool) -> (s: DeliveryStrategy)
    ensures
        s == strategy_of(env, compiled_frontend),
{
    match env {
        Environment::Development => DeliveryStrategy::DevServer,
        Environment::Production => if compiled_frontend {
            DeliveryStrategy::NativeBinary
        } else {
            DeliveryStrategy::HostedScript
        },
    }
}

} // verus!
