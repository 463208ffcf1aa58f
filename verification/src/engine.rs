//! The engine client crate, as far as the library relies on it.
//!
//! Everything here is taken on trust from `shiplift`: its types are opaque,
//! and each function below states what the crate's source shows of one of its
//! pure parameter builders. No request is sent from here.

use shiplift::builder::ContainerOptionsBuilder;
use shiplift::{ContainerOptions, Docker, PullOptions, RmContainerOptions};
use std::sync::Arc;
use vstd::prelude::*;

verus! {

/// `shiplift::Docker`, the connection to the engine.
#[verifier::external_type_specification]
#[verifier::external_body]
pub struct ExDocker(shiplift::Docker);

/// `shiplift::Error`, whatever the engine client reports as a failure.
#[verifier::external_type_specification]
#[verifier::external_body]
pub struct ExEngineError(shiplift::Error);

/// `shiplift::builder::ContainerOptionsBuilder`, creation parameters in the making.
#[verifier::external_type_specification]
#[verifier::external_body]
pub struct ExContainerOptionsBuilder(shiplift::builder::ContainerOptionsBuilder);

/// `shiplift::ContainerOptions`, the parameters of a creation request.
#[verifier::external_type_specification]
#[verifier::external_body]
pub struct ExContainerOptions(shiplift::ContainerOptions);

/// `shiplift::PullOptions`, the parameters of a pull request.
#[verifier::external_type_specification]
#[verifier::external_body]
pub struct ExPullOptions(shiplift::PullOptions);

/// `shiplift::RmContainerOptions`, the parameters of a removal request.
#[verifier::external_type_specification]
#[verifier::external_body]
pub struct ExRmContainerOptions(shiplift::RmContainerOptions);

/// Shared handle to the engine connection.
pub type Client = Arc<Docker>;

/// A failure reported by the engine client.
pub type EngineError = shiplift::Error;

/// Published ports as the engine client keeps them: keyed by container port
/// and protocol, each with the host port it is bound to.
pub type Bindings = Map<(u32, Seq<char>), u32>;

/// Query parameters of a request, by key.
pub type Parameters = Map<Seq<char>, Seq<char>>;

/// The image a builder was started with (its `Image` parameter).
pub uninterp spec fn builder_image(builder: ContainerOptionsBuilder) -> Seq<char>;

/// The container name a builder holds, if one was set.
pub uninterp spec fn builder_name(builder: ContainerOptionsBuilder) -> Option<Seq<char>>;

/// The port bindings a builder holds (its `HostConfig.PortBindings` parameter,
/// whose keys `ExposedPorts` repeats).
pub uninterp spec fn builder_bindings(builder: ContainerOptionsBuilder) -> Bindings;

/// The image of finished creation parameters.
pub uninterp spec fn options_image(options: ContainerOptions) -> Seq<char>;

/// The container name of finished creation parameters.
pub uninterp spec fn options_name(options: ContainerOptions) -> Option<Seq<char>>;

/// The port bindings of finished creation parameters.
pub uninterp spec fn options_bindings(options: ContainerOptions) -> Bindings;

/// The query parameters of a pull request, by key.
pub uninterp spec fn pull_parameters(options: PullOptions) -> Parameters;

/// The query parameters of a removal request, by key.
pub uninterp spec fn removal_parameters(options: RmContainerOptions) -> Parameters;

/// How `bool::to_string` spells a flag.
pub open spec fn flag_text(flag: bool) -> Seq<char> {
    if flag {
        "true"@
    } else {
        "false"@
    }
}

/// `Arc::clone`: one more handle to the same connection.
#[verifier::external_body]
pub(crate) fn share(client: &Client) -> (shared: Client)
    ensures
        shared == *client,
{
    Arc::clone(client)
}

/// `ContainerOptions::builder`: a builder that holds the image and nothing
/// else, neither a name nor a port binding.
#[verifier::external_body]
pub(crate) fn options_builder(image: &str) -> (builder: ContainerOptionsBuilder)
    ensures
        builder_image(builder) == image@,
        builder_name(builder) is None,
        builder_bindings(builder) == Bindings::empty(),
{
    ContainerOptions::builder(image)
}

/// `ContainerOptionsBuilder::name`: replaces the name, and leaves the image
/// and the bindings as they were.
#[verifier::external_body]
pub(crate) fn set_name(builder: &mut ContainerOptionsBuilder, name: &str)
    ensures
        builder_name(*final(builder)) == Some(name@),
        builder_image(*final(builder)) == builder_image(*old(builder)),
        builder_bindings(*final(builder)) == builder_bindings(*old(builder)),
{
    builder.name(name);
}

/// `ContainerOptionsBuilder::expose`: binds the container port `source` of
/// `protocol` to the host port `host`, in place of an earlier binding of the
/// same port and protocol; the other bindings, the image and the name stay.
#[verifier::external_body]
pub(crate) fn expose_port(
    builder: &mut ContainerOptionsBuilder,
    source: u32,
    protocol: &str,
    host: u32,
)
    ensures
        builder_bindings(*final(builder)) == builder_bindings(*old(builder)).insert(
            (source, protocol@),
            host,
        ),
        builder_image(*final(builder)) == builder_image(*old(builder)),
        builder_name(*final(builder)) == builder_name(*old(builder)),
{
    builder.expose(source, protocol, host);
}

/// `ContainerOptionsBuilder::build`: creation parameters that hold what the
/// builder holds.
#[verifier::external_body]
pub(crate) fn finish_options(builder: &ContainerOptionsBuilder) -> (options: ContainerOptions)
    ensures
        options_image(options) == builder_image(*builder),
        options_name(options) == builder_name(*builder),
        options_bindings(options) == builder_bindings(*builder),
{
    builder.build()
}

/// `PullOptions::builder`, `image` and `build`: pull parameters whose only
/// entry is the image, under `fromImage`.
#[verifier::external_body]
pub(crate) fn pull_options(image: &str) -> (options: PullOptions)
    ensures
        pull_parameters(options) == Parameters::empty().insert("fromImage"@, image@),
{
    PullOptions::builder().image(image).build()
}

/// `RmContainerOptions::builder`, `force` and `build`: removal parameters
/// whose only entry is the flag, under `force`.
#[verifier::external_body]
pub(crate) fn removal_options(force: bool) -> (options: RmContainerOptions)
    ensures
        removal_parameters(options) == Parameters::empty().insert("force"@, flag_text(force)),
{
    RmContainerOptions::builder().force(force).build()
}

} // verus!
