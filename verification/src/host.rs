//! The server host's composition decisions: the loopback bind address, the
//! order of the middleware stack per build mode, and the process exit
//! status. Binding, accepting and dispatching are the embedder's work.

use vstd::prelude::*;
use vstd::string::StringExecFns;
use crate::environment::Environment;
use crate::supervisor::HostError;
use crate::text::{dec_rep, u16_to_string};

verus! {

/// One layer of the request pipeline, outermost first.
#[derive(Clone, Copy, PartialEq, Eq, Structural, Debug)]
pub enum RouterLayer {
    /// The embedded static-asset middleware.
    StaticAssets,
    /// The reverse-proxy subtree of the engine.
    ProxySubtree,
    /// The shared-state injector handed to request handlers.
    StateInjector,
}

/// The middleware stack for a build mode, outermost first: in Production
/// the asset middleware shortcuts in front of the proxy; in Development
/// the dev server serves assets itself and the proxy is outermost.
pub fn router_plan(env: &Environment) -> (r: Vec<RouterLayer>)
    ensures
        match env {
            Environment::Production => r@ == seq![
                RouterLayer::StaticAssets,
                RouterLayer::ProxySubtree,
                RouterLayer::StateInjector,
            ],
            Environment::Development => r@ == seq![
                RouterLayer::ProxySubtree,
                RouterLayer::StateInjector,
            ],
        },
{
    let mut r: Vec<RouterLayer> = Vec::new();
    match env {
        Environment::Production => {
            r.push(RouterLayer::StaticAssets);
            r.push(RouterLayer::ProxySubtree);
            r.push(RouterLayer::StateInjector);
            proof {
                assert(r@ =~= seq![
                    RouterLayer::StaticAssets,
                    RouterLayer::ProxySubtree,
                    RouterLayer::StateInjector,
                ]);
            }
        },
        Environment::Development => {
            r.push(RouterLayer::ProxySubtree);
            r.push(RouterLayer::StateInjector);
            proof {
                assert(r@ =~= seq![RouterLayer::ProxySubtree, RouterLayer::StateInjector]);
            }
        },
    }
    r
}

/// The loopback address the server binds: `127.0.0.1:<port>`.
pub fn bind_address(port: u16) -> (a: String)
    ensures
        a@ == "127.0.0.1:"@ + dec_rep(port as nat),
{
    let mut a: String = "127.0.0.1:".to_owned();
    let port_str = u16_to_string(port);
    a.append(port_str.as_str());
    a
}

/// The process exit status: 0 on a normal end, 1 after a fatal error.
pub fn exit_status(outcome: &Result<(), HostError>) -> (c: i32)
    ensures
        c == (if outcome is Ok {
            0int
        } else {
            1int
        }),
{
    match outcome {
        Ok(_) => 0,
        Err(_) => 1,
    }
}

} // verus!
