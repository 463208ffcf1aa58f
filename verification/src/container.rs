//! The builder and the handle of a running container.

use crate::engine::{removal_options, share, Client};
use crate::port::Port;
use crate::request::{
    text_of, ContainerDetails, CreateParams, DetailsView, ParamsView, PortDescription, Request,
    RequestView,
};
use crate::sequence::{opening, pull_image_if, pull_request, Build, ProgressView};
use crate::slug::{is_slugged, joined_is_slugged, random_slug, with_slug};
use vstd::prelude::*;

verus! {

/// A request together with the connection it is meant for.
pub struct Call {
    pub client: Client,
    pub request: Request,
}

/// A container that was created, started and inspected.
///
/// The handle keeps the inspection it was made from and never asks the
/// engine again: what it reports is the state at that time.
pub struct Container {
    details: ContainerDetails,
    client: Client,
}

/// A [`Container`] in plain values.
pub struct ContainerView {
    pub client: Client,
    pub details: DetailsView,
}

impl ContainerView {
    /// The port bindings the handle reports.
    pub open spec fn ports(self) -> Option<PortDescription> {
        self.details.ports
    }
}

impl View for Container {
    type V = ContainerView;

    closed spec fn view(&self) -> ContainerView {
        ContainerView { client: self.client, details: self.details@ }
    }
}

impl Container {
    /// The handle of the container that `details` describe.
    pub(crate) fn from_inspection(client: Client, details: ContainerDetails) -> (container:
        Container)
        ensures
            container@ == (ContainerView { client, details: details@ }),
    {
        Container { details, client }
    }

    /// Begins the build of a container from `image_name` with nothing else
    /// configured.
    pub fn new(client: &Client, image_name: &str) -> (start: (Build, Request))
        ensures
            ProgressView::Next(start.0@, start.1@) == opening(
                *client,
                BuilderView::fresh(*client, image_name@).params(None),
                false,
            ),
            start.1.well_formed(),
    {
        ContainerBuilder::new(client, image_name).build()
    }

    /// A builder for a container from `image_name`.
    pub fn builder(client: &Client, image_name: &str) -> (builder: ContainerBuilder)
        ensures
            builder@ == BuilderView::fresh(*client, image_name@),
    {
        ContainerBuilder::new(client, image_name)
    }

    /// The identifier the engine gave the container.
    pub fn id(&self) -> (id: &str)
        ensures
            id@ == self@.details.id,
    {
        self.details.id.as_str()
    }

    /// The port bindings as the inspection reported them.
    pub fn ports(&self) -> (ports: &Option<PortDescription>)
        ensures
            *ports == self@.ports(),
    {
        &self.details.ports
    }

    /// Gives the handle up for the request that removes the container. The
    /// removal is always forced, so that it goes through while the container
    /// still runs.
    pub fn delete(self) -> (call: Call)
        ensures
            call.client == self@.client,
            call.request@ == (RequestView::Remove { id: self@.details.id, force: true }),
            call.request.well_formed(),
    {
        let options = removal_options(true);
        Call {
            client: self.client,
            request: Request::Remove { id: self.details.id, force: true, options },
        }
    }
}

/// Collects what a container is to be built from.
pub struct ContainerBuilder {
    image_name: String,
    image_tag: String,
    name: Option<String>,
    ports: Vec<Port>,
    client: Client,
    pull_on_build: bool,
    slug_length: usize,
}

/// A [`ContainerBuilder`] in plain values.
pub struct BuilderView {
    pub client: Client,
    pub image_name: Seq<char>,
    pub image_tag: Seq<char>,
    pub name: Option<Seq<char>>,
    pub ports: Seq<Port>,
    pub pull_on_build: bool,
    pub slug_length: nat,
}

impl BuilderView {
    /// A builder with nothing configured but the image.
    pub open spec fn fresh(client: Client, image_name: Seq<char>) -> BuilderView {
        BuilderView {
            client,
            image_name,
            image_tag: "latest"@,
            name: None,
            ports: Seq::empty(),
            pull_on_build: false,
            slug_length: 0,
        }
    }

    /// The image reference: name, colon, tag.
    pub open spec fn image(self) -> Seq<char> {
        self.image_name + seq![':'] + self.image_tag
    }

    /// The builder with `name` as its base name.
    pub open spec fn named(self, name: Seq<char>) -> BuilderView {
        BuilderView { name: Some(name), ..self }
    }

    /// The builder with slugs of `length` characters.
    pub open spec fn slugged(self, length: nat) -> BuilderView {
        BuilderView { slug_length: length, ..self }
    }

    /// The builder with `port` after the ports it has.
    pub open spec fn exposing(self, port: Port) -> BuilderView {
        BuilderView { ports: self.ports.push(port), ..self }
    }

    /// `name` is a name the builder's container may be created under: none
    /// without a base name, the base name itself without a slug, and else
    /// the base name followed by an underscore and a slug of the set length.
    pub open spec fn resolves(self, name: Option<Seq<char>>) -> bool {
        match self.name {
            None => name is None,
            Some(base) => {
                &&& name is Some
                &&& if self.slug_length == 0 {
                    name->0 == base
                } else {
                    is_slugged(name->0, base, self.slug_length)
                }
            },
        }
    }

    /// The creation parameters of the builder's container under `name`.
    pub open spec fn params(self, name: Option<Seq<char>>) -> ParamsView {
        ParamsView { image: self.image(), name, ports: self.ports }
    }

    /// The builder after `ports` were exposed one after another.
    pub open spec fn exposing_all(self, ports: Seq<Port>) -> BuilderView
        decreases ports.len(),
    {
        if ports.len() == 0 {
            self
        } else {
            self.exposing_all(ports.drop_last()).exposing(ports.last())
        }
    }

    /// The request of a pull on its own.
    pub open spec fn lone_pull(self) -> RequestView {
        RequestView::Pull { image: self.image() }
    }
}

impl View for ContainerBuilder {
    type V = BuilderView;

    closed spec fn view(&self) -> BuilderView {
        BuilderView {
            client: self.client,
            image_name: self.image_name@,
            image_tag: self.image_tag@,
            name: text_of(self.name),
            ports: self.ports@,
            pull_on_build: self.pull_on_build,
            slug_length: self.slug_length as nat,
        }
    }
}

impl ContainerBuilder {
    /// A builder for a container from `image_name`: tag `latest`, no name, no
    /// slug, no ports, and no pull before the creation.
    pub fn new(client: &Client, image_name: &str) -> (builder: ContainerBuilder)
        ensures
            builder@ == BuilderView::fresh(*client, image_name@),
    {
        ContainerBuilder {
            image_name: image_name.to_owned(),
            image_tag: "latest".to_owned(),
            name: None,
            ports: Vec::new(),
            client: share(client),
            pull_on_build: false,
            slug_length: 0,
        }
    }

    /// The image reference: name, colon, tag.
    pub fn image(&self) -> (image: String)
        ensures
            image@ == self@.image(),
    {
        proof {
            reveal_strlit(":");
        }
        let image = self.image_name.clone().concat(":").concat(self.image_tag.as_str());
        assert(image@ =~= self@.image());
        image
    }

    /// Sets the base name, in place of an earlier one.
    pub fn name(self, name: &str) -> (builder: ContainerBuilder)
        ensures
            builder@ == self@.named(name@),
    {
        let mut builder = self;
        builder.name = Some(name.to_owned());
        builder
    }

    /// The request that pulls the builder's image, and nothing more: the
    /// builder stays as it is, and no container is created or started.
    pub fn pull_image(&self) -> (call: Call)
        ensures
            call.client == self@.client,
            call.request@ == self@.lone_pull(),
            call.request.well_formed(),
    {
        Call { client: share(&self.client), request: pull_request(self.image()) }
    }

    /// Sets the length of the random suffix of the name; 0 means no suffix.
    pub fn slug_length(self, length: usize) -> (builder: ContainerBuilder)
        ensures
            builder@ == self@.slugged(length as nat),
    {
        let mut builder = self;
        builder.slug_length = length;
        builder
    }

    /// The name the container is created under: the base name, with a fresh
    /// slug behind an underscore if a slug length is set. Without a base name
    /// there is none, and the engine picks one.
    pub fn slugged_name(&self) -> (name: Option<String>)
        ensures
            self@.resolves(text_of(name)),
    {
        match &self.name {
            None => None,
            Some(base) => {
                if self.slug_length > 0 {
                    let slug = random_slug(self.slug_length);
                    proof {
                        joined_is_slugged(base@, slug@, self.slug_length as nat);
                    }
                    Some(with_slug(base.as_str(), slug.as_str()))
                } else {
                    Some(base.clone())
                }
            },
        }
    }

    /// Adds a published port after those already asked for.
    pub fn expose(self, port: Port) -> (builder: ContainerBuilder)
        ensures
            builder@ == self@.exposing(port),
    {
        let mut builder = self;
        builder.ports.push(port);
        builder
    }

    /// Begins the build under `name`, which stands for the resolved name.
    pub fn build_with_name(self, name: Option<String>) -> (start: (Build, Request))
        ensures
            ProgressView::Next(start.0@, start.1@) == opening(
                self@.client,
                self@.params(text_of(name)),
                self@.pull_on_build,
            ),
            start.1.well_formed(),
    {
        let image = self.image();
        let params = CreateParams { image, name, ports: self.ports };
        pull_image_if(self.client, params, self.pull_on_build)
    }

    /// Resolves the name and begins the build: the first request is the pull
    /// if one is asked for, and the creation if not.
    pub fn build(self) -> (start: (Build, Request))
        ensures
            exists|name: Option<Seq<char>>|
                {
                    &&& #[trigger] self@.resolves(name)
                    &&& ProgressView::Next(start.0@, start.1@) == opening(
                        self@.client,
                        self@.params(name),
                        self@.pull_on_build,
                    )
                },
            start.1.well_formed(),
    {
        let name = self.slugged_name();
        let ghost resolved = text_of(name);
        let start = self.build_with_name(name);
        assert(self@.resolves(resolved));
        start
    }
}

/// Exposed ports keep their order: after `ports` were exposed one after
/// another, the creation parameters list the ports the builder had before,
/// then `ports` as they came, and the rest of the builder is untouched.
pub proof fn exposed_ports_keep_their_order(
    builder: BuilderView,
    ports: Seq<Port>,
    name: Option<Seq<char>>,
)
    ensures
        builder.exposing_all(ports).params(name).ports == builder.ports + ports,
        builder.exposing_all(ports) == (BuilderView { ports: builder.ports + ports, ..builder }),
    decreases ports.len(),
{
    if ports.len() == 0 {
        assert(builder.ports + ports =~= builder.ports);
    } else {
        exposed_ports_keep_their_order(builder, ports.drop_last(), name);
        assert((builder.ports + ports.drop_last()).push(ports.last()) =~= builder.ports + ports);
    }
}

/// A pull on its own creates and starts nothing: its one request asks for
/// the builder's image, and is neither a creation nor a start.
pub proof fn lone_pull_creates_nothing(builder: BuilderView)
    ensures
        builder.lone_pull() == (RequestView::Pull { image: builder.image() }),
        !(builder.lone_pull() is Create),
        !(builder.lone_pull() is Start),
{
}

/// Reading the ports of a handle twice gives the same data: both readings
/// are the bindings of the one inspection the handle holds.
pub proof fn ports_read_twice_agree(
    container: ContainerView,
    first: Option<PortDescription>,
    second: Option<PortDescription>,
)
    requires
        first == container.ports(),
        second == container.ports(),
    ensures
        first == second,
        first == container.details.ports,
{
}

} // verus!
