//! etcd's statistics API.
//!
//! Only the leader of the cluster keeps statistics about the cluster as a
//! whole, so those are asked of one member after another. The statistics of
//! a member about itself and about its store are asked of every member.

use vstd::prelude::*;

use crate::client::{get_path_request, Client};
use crate::request::{Dispatch, Request};

verus! {

/// The request for the statistics that the leader keeps about the cluster.
/// Where every member fails, the first error stands for all; see
/// [`crate::client::first_error`].
pub fn leader_stats(client: &Client) -> (request: Request)
    ensures
        request@ == get_path_request("/v2/stats/leader"@, Dispatch::FirstOk),
{
    proof {
        reveal_strlit("/v2/stats/leader");
    }
    client.request_first_ok("/v2/stats/leader")
}

/// The request for the statistics that each member keeps about itself.
pub fn self_stats(client: &Client) -> (request: Request)
    ensures
        request@ == get_path_request("/v2/stats/self"@, Dispatch::EveryEndpoint),
{
    proof {
        reveal_strlit("/v2/stats/self");
    }
    client.request_on_each_endpoint("/v2/stats/self")
}

/// The request for the statistics that each member keeps about its store.
pub fn store_stats(client: &Client) -> (request: Request)
    ensures
        request@ == get_path_request("/v2/stats/store"@, Dispatch::EveryEndpoint),
{
    proof {
        reveal_strlit("/v2/stats/store");
    }
    client.request_on_each_endpoint("/v2/stats/store")
}

} // verus!
