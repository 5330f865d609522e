//! A line-driven display-surface manager: an external producer sends
//! newline-delimited render requests, each request becomes an independent
//! display surface, and every surface talks back over a narrow text
//! protocol (results, file opens, devtools, chunked blob downloads).
//!
//! The crate holds the verified core: the request parser (`request`), the
//! surface registry and its no-id-reuse guarantee (`registry`), the event
//! dispatcher (`events`), the bridge protocol codec (`bridge`, `handlers`),
//! the blob reassembly sub-protocol with its base64 decoder (`blob`), and
//! the egress line builders (`console`). The GUI toolkit that actually
//! draws the surfaces, and the streams the process reads and writes, are
//! external collaborators driven by the plans and effects computed here.

use vstd::prelude::*;

pub mod blob;
pub mod bridge;
pub mod console;
pub mod events;
pub mod handlers;
pub mod json;
pub mod registry;
pub mod request;
pub mod strutil;
pub mod utils;
pub mod window;

verus! {

/// Scan range logic of the port finder: the first candidate in
/// `[14733, 16789)` that is not already taken is chosen.
pub fn get_available_port(taken: &Vec<u16>) -> (r: Option<u16>)
    ensures
        match r {
            Some(p) => {
                &&& 14733 <= p < 16789
                &&& !taken@.contains(p)
                &&& forall|q: u16| 14733 <= q < p ==> taken@.contains(q)
            },
            None => forall|q: u16| 14733 <= q < 16789 ==> taken@.contains(q),
        },
{
    let mut port: u16 = 14733;
    while port < 16789
        invariant
            14733 <= port <= 16789,
            forall|q: u16| 14733 <= q < port ==> taken@.contains(q),
        decreases 16789 - port,
    {
        if !contains_port(taken, port) {
            return Some(port);
        }
        port = port + 1;
    }
    None
}

fn contains_port(taken: &Vec<u16>, port: u16) -> (r: bool)
    ensures
        r == taken@.contains(port),
{
    let mut i: usize = 0;
    while i < taken.len()
        invariant
            i <= taken@.len(),
            forall|j: int| 0 <= j < i ==> taken@[j] != port,
        decreases taken@.len() - i,
    {
        if taken[i] == port {
            return true;
        }
        i = i + 1;
    }
    false
}

} // verus!
