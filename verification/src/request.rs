//! What is asked of the engine, and what it answers.
//!
//! A [`Request`] describes one engine call in plain values; where the engine
//! client wants its own parameter type, the request carries that value too,
//! made from the plain ones. A [`Reply`] is what a successful call hands back.

use crate::engine::{
    builder_bindings, builder_image, builder_name, expose_port, finish_options, flag_text,
    options_bindings, options_builder, options_image, options_name, pull_parameters,
    removal_parameters, set_name, Bindings, Parameters,
};
use crate::port::Port;
use shiplift::{ContainerOptions, PullOptions, RmContainerOptions};
use std::collections::HashMap;
use vstd::prelude::*;

verus! {

/// The text of an optional string.
pub open spec fn text_of(text: Option<String>) -> Option<Seq<char>> {
    match text {
        Some(t) => Some(t@),
        None => None,
    }
}

/// What a container is created from.
pub struct CreateParams {
    /// Image reference, tag included.
    pub image: String,
    /// Container name; without one the engine picks a name.
    pub name: Option<String>,
    /// Published ports, in the order they were asked for.
    pub ports: Vec<Port>,
}

/// [`CreateParams`] as plain text and sequences.
pub struct ParamsView {
    pub image: Seq<char>,
    pub name: Option<Seq<char>>,
    pub ports: Seq<Port>,
}

impl View for CreateParams {
    type V = ParamsView;

    open spec fn view(&self) -> ParamsView {
        ParamsView { image: self.image@, name: text_of(self.name), ports: self.ports@ }
    }
}

/// The bindings that result from publishing `ports` one after another: of
/// two mappings of the same container port and protocol the later one stays.
pub open spec fn published(ports: Seq<Port>) -> Bindings
    decreases ports.len(),
{
    if ports.len() == 0 {
        Bindings::empty()
    } else {
        published(ports.drop_last()).insert(
            (ports.last().source, ports.last().protocol.wire_name()),
            ports.last().host,
        )
    }
}

/// `options` ask the engine for exactly what `params` describe.
pub open spec fn options_match(options: ContainerOptions, params: ParamsView) -> bool {
    &&& options_image(options) == params.image
    &&& options_name(options) == params.name
    &&& options_bindings(options) == published(params.ports)
}

/// Translates creation parameters into the engine client's form: the image,
/// the name if there is one, and every port in order.
pub fn container_options(params: &CreateParams) -> (options: ContainerOptions)
    ensures
        options_match(options, params@),
{
    let mut builder = options_builder(params.image.as_str());
    if let Some(name) = &params.name {
        set_name(&mut builder, name.as_str());
    }
    let mut done: usize = 0;
    while done < params.ports.len()
        invariant
            done <= params.ports.len(),
            builder_image(builder) == params.image@,
            builder_name(builder) == text_of(params.name),
            builder_bindings(builder) == published(params.ports@.take(done as int)),
        decreases params.ports.len() - done,
    {
        let port = params.ports[done];
        expose_port(&mut builder, port.source, port.protocol.as_ref(), port.host);
        proof {
            let before = params.ports@.take(done as int);
            let after = params.ports@.take(done + 1);
            assert(after.drop_last() =~= before);
            assert(after.last() == port);
        }
        done += 1;
    }
    assert(params.ports@.take(done as int) =~= params.ports@);
    finish_options(&builder)
}

/// One call to the engine.
#[allow(inconsistent_fields)]
pub enum Request {
    /// Fetch `image` from its registry.
    Pull { image: String, options: PullOptions },
    /// Create a container from `params`.
    Create { params: CreateParams, options: ContainerOptions },
    /// Start the container `id`.
    Start { id: String },
    /// Report the state of the container `id`.
    Inspect { id: String },
    /// Remove the container `id`; with `force`, also while it runs.
    Remove { id: String, force: bool, options: RmContainerOptions },
}

/// A [`Request`] in plain values.
pub enum RequestView {
    Pull { image: Seq<char> },
    Create { params: ParamsView },
    Start { id: Seq<char> },
    Inspect { id: Seq<char> },
    Remove { id: Seq<char>, force: bool },
}

impl View for Request {
    type V = RequestView;

    open spec fn view(&self) -> RequestView {
        match self {
            Request::Pull { image, .. } => RequestView::Pull { image: image@ },
            Request::Create { params, .. } => RequestView::Create { params: params@ },
            Request::Start { id } => RequestView::Start { id: id@ },
            Request::Inspect { id } => RequestView::Inspect { id: id@ },
            Request::Remove { id, force, .. } => RequestView::Remove { id: id@, force: *force },
        }
    }
}

impl Request {
    /// The engine client's parameters say what the plain values say.
    pub open spec fn well_formed(&self) -> bool {
        match self {
            Request::Pull { image, options } => pull_parameters(*options)
                == Parameters::empty().insert("fromImage"@, image@),
            Request::Create { params, options } => options_match(*options, params@),
            Request::Remove { force, options, .. } => removal_parameters(*options)
                == Parameters::empty().insert("force"@, flag_text(*force)),
            _ => true,
        }
    }
}

/// Host bindings by `"port/protocol"`, as an inspection reports them.
pub type PortDescription = HashMap<String, Option<Vec<HashMap<String, String>>>>;

/// What an inspection tells of a container, as far as this library reads it.
pub struct ContainerDetails {
    /// The identifier the engine gave the container.
    pub id: String,
    /// The port bindings in its network settings.
    pub ports: Option<PortDescription>,
}

/// [`ContainerDetails`] with the identifier as text.
pub struct DetailsView {
    pub id: Seq<char>,
    pub ports: Option<PortDescription>,
}

impl View for ContainerDetails {
    type V = DetailsView;

    open spec fn view(&self) -> DetailsView {
        DetailsView { id: self.id@, ports: self.ports }
    }
}

/// What the engine hands back when a request succeeds.
pub enum Reply {
    /// The image is there.
    Pulled,
    /// A container was created and has this identifier.
    Created { id: String },
    /// The container runs.
    Started,
    /// The container's state at the time of the request.
    Inspected { details: ContainerDetails },
    /// The container is gone.
    Removed,
}

/// A [`Reply`] in plain values.
pub enum ReplyView {
    Pulled,
    Created { id: Seq<char> },
    Started,
    Inspected { details: DetailsView },
    Removed,
}

impl View for Reply {
    type V = ReplyView;

    open spec fn view(&self) -> ReplyView {
        match self {
            Reply::Pulled => ReplyView::Pulled,
            Reply::Created { id } => ReplyView::Created { id: id@ },
            Reply::Started => ReplyView::Started,
            Reply::Inspected { details } => ReplyView::Inspected { details: details@ },
            Reply::Removed => ReplyView::Removed,
        }
    }
}

} // verus!
