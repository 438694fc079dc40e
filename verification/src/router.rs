//! Routing: where the routes are mounted, and what each of them
//! answers.

use vstd::prelude::*;
use vstd::string::StringExecFns;
use crate::infrastructure::config::ServerConfig;

pub mod laws;
pub mod user;

verus! {

/// Where the routes are mounted.
#[derive(Debug)]
pub enum Mount {
    /// At the root: every route keeps its own path.
    Root,
    /// Under a prefix, which is put before every route's path.
    Nested(String),
}

/// The path that stands for the root.
pub open spec fn root_path() -> Seq<char> {
    seq!['/']
}

/// Where `server` mounts the routes: under its prefix, or at the root
/// where it names none or names the root itself.
pub fn mount(server: &ServerConfig) -> (mount: Mount)
    ensures
        (match server.prefix {
            Some(prefix) if prefix@ != root_path() => mount matches Mount::Nested(path) && path@
                == prefix@,
            _ => mount is Root,
        }),
{
    proof {
        reveal_strlit("/");
    }
    let root = String::from_str("/");
    assert(root@ =~= root_path());
    match &server.prefix {
        Some(prefix) => {
            if *prefix == root {
                Mount::Root
            } else {
                Mount::Nested(prefix.clone())
            }
        },
        None => Mount::Root,
    }
}

} // verus!
