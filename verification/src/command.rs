//! The fixed outside interface data of the supervisor.
//!
//! Everything the supervisor tells the operating system is hardcoded: the
//! health endpoint it probes, the interpreter, arguments and working
//! directory of the one service it spawns, and the names under which the
//! companion daemon is probed and launched. The driver takes these values
//! from here, so that the contracts pin down exactly what is invoked.

use vstd::prelude::*;

verus! {

/// The port the service is bound to and probed on.
pub const BACKEND_PORT: u16 = 8420;

/// The local endpoint whose successful response means the service is
/// healthy.
pub fn health_endpoint() -> (r: &'static str)
    ensures
        r@ == "http://localhost:8420/"@,
{
    "http://localhost:8420/"
}

/// The interpreter binary that runs the service.
pub fn backend_interpreter() -> (r: &'static str)
    ensures
        r@ == "/Users/d/NEXUS/backend/venv/bin/python"@,
{
    "/Users/d/NEXUS/backend/venv/bin/python"
}

/// The working directory the service is spawned in.
pub fn backend_working_dir() -> (r: &'static str)
    ensures
        r@ == "/Users/d/NEXUS/backend"@,
{
    "/Users/d/NEXUS/backend"
}

/// The fixed command-line arguments of the service: run the web server
/// bound to the hardcoded host and port.
pub fn backend_args() -> (r: Vec<&'static str>)
    ensures
        r@.len() == 7,
        r@[0]@ == "-m"@,
        r@[1]@ == "uvicorn"@,
        r@[2]@ == "app.main:app"@,
        r@[3]@ == "--host"@,
        r@[4]@ == "0.0.0.0"@,
        r@[5]@ == "--port"@,
        r@[6]@ == "8420"@,
{
    let mut v: Vec<&'static str> = Vec::new();
    v.push("-m");
    v.push("uvicorn");
    v.push("app.main:app");
    v.push("--host");
    v.push("0.0.0.0");
    v.push("--port");
    v.push("8420");
    v
}

/// The companion daemon's process name, as looked up in the OS process
/// table.
pub fn daemon_process_name() -> (r: &'static str)
    ensures
        r@ == "ollama"@,
{
    "ollama"
}

/// The application name under which the platform launcher starts the
/// companion daemon.
pub fn daemon_app_name() -> (r: &'static str)
    ensures
        r@ == "Ollama"@,
{
    "Ollama"
}

} // verus!
