//! Where the client connects by default.
use vstd::prelude::*;
use vstd::string::StringExecFns;

verus! {

pub struct AppConfig {
    pub orchestrator_url: String,
    pub agent_gateway_url: String,
}

impl Default for AppConfig {
    fn default() -> (r: AppConfig)
        ensures
            r.orchestrator_url@ == "http://localhost:3000"@,
            r.agent_gateway_url@ == "ws://127.0.0.1:18790/ws"@,
    {
        AppConfig {
            orchestrator_url: String::from_str("http://localhost:3000"),
            agent_gateway_url: String::from_str("ws://127.0.0.1:18790/ws"),
        }
    }
}

} // verus!
