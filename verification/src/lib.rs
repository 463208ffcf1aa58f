//! Plans the provisioning, starting and removal of Docker containers.
//!
//! A [`ContainerBuilder`] collects what a container should look like. Building
//! it yields the first engine request of a fixed sequence (pull, create, start,
//! inspect); every engine reply is handed to [`Build::advance`], which answers
//! with the next request, the finished [`Container`], or the failure. The
//! library never talks to the engine itself: the caller performs each request
//! on the client handle that travels with it.

pub mod container;
pub mod engine;
pub mod port;
pub mod request;
pub mod sequence;
pub mod slug;

pub use container::{Call, Container, ContainerBuilder};
pub use engine::{Client, EngineError};
pub use port::{Port, Protocol};
pub use request::{ContainerDetails, CreateParams, PortDescription, Reply, Request};
pub use sequence::{Build, BuildError, Progress};
