//! A typed client layer over a resource-oriented HTTP API: the releases
//! resource of a repository.
//!
//! A caller binds a [`repos::RepoIdentity`] (owner and repository name),
//! obtains a releases scope from it, configures an operation through a
//! fluent builder, and finally asks the builder for the request path and
//! the serialized parameter bag. Optional fields that were never set are
//! omitted from the bag entirely; they never serialize to an explicit
//! null or empty value. The network transport itself lives outside this
//! library: it receives the path and the bag and returns raw results.

pub mod laws;
pub mod page;
pub mod params;
pub mod releases;
pub mod repos;
