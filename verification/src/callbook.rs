//! The agent's address book of upstream services: three endpoints, fixed
//! at construction. The lookups made against them are unverified
//! collaborators; what the agent decides on their answers lives in the
//! validation pipeline.

use vstd::prelude::*;

verus! {

/// Three network-resolvable endpoints, immutable once built.
pub struct CallBook {
    /// The data-indexing node's status endpoint.
    graph_node_status: String,
    /// The registry endpoint resolving wallet addresses to indexer ids.
    graphcast_registry: String,
    /// The network-state endpoint answering stake queries.
    graph_network: String,
}

impl CallBook {
    /// The status endpoint, as the contracts speak of it.
    pub closed spec fn graph_node_status_view(&self) -> Seq<char> {
        self.graph_node_status@
    }

    /// The registry endpoint, as the contracts speak of it.
    pub closed spec fn graphcast_registry_view(&self) -> Seq<char> {
        self.graphcast_registry@
    }

    /// The network-state endpoint, as the contracts speak of it.
    pub closed spec fn graph_network_view(&self) -> Seq<char> {
        self.graph_network@
    }

    /// Fix the three endpoints.
    pub fn new(
        graph_node_status: String,
        graphcast_registry: String,
        graph_network: String,
    ) -> (r: CallBook)
        ensures
            r.graph_node_status_view() == graph_node_status@,
            r.graphcast_registry_view() == graphcast_registry@,
            r.graph_network_view() == graph_network@,
    {
        CallBook { graph_node_status, graphcast_registry, graph_network }
    }

    /// The status endpoint.
    pub fn graph_node_status(&self) -> (r: &String)
        ensures
            r@ == self.graph_node_status_view(),
    {
        &self.graph_node_status
    }

    /// The registry endpoint.
    pub fn graphcast_registry(&self) -> (r: &String)
        ensures
            r@ == self.graphcast_registry_view(),
    {
        &self.graphcast_registry
    }

    /// The network-state endpoint.
    pub fn graph_network(&self) -> (r: &String)
        ensures
            r@ == self.graph_network_view(),
    {
        &self.graph_network
    }
}

} // verus!
