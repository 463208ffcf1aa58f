//! The build sequence: pull, create, start, inspect.
//!
//! A [`Build`] is a build with one request under way. The caller performs the
//! request and hands the outcome to [`Build::advance`]; each step runs only
//! after the one before it succeeded, and the first failure ends the build.
//! Nothing is undone on failure: a container that was created stays for the
//! caller to inspect or remove.

use crate::container::{Container, ContainerView};
use crate::engine::{pull_options, Client, EngineError};
use crate::request::{
    container_options, CreateParams, ParamsView, Reply, ReplyView, Request, RequestView,
};
use vstd::prelude::*;

verus! {

/// A build that waits for the engine's answer to one request.
pub enum Build {
    /// The image is being pulled; `params` wait for the creation.
    Pulling { client: Client, params: CreateParams },
    /// The container is being created.
    Creating { client: Client },
    /// The container `id` is being started.
    Starting { client: Client, id: String },
    /// The started container is being inspected.
    Inspecting { client: Client },
}

/// A [`Build`] in plain values.
pub enum BuildView {
    Pulling { client: Client, params: ParamsView },
    Creating { client: Client },
    Starting { client: Client, id: Seq<char> },
    Inspecting { client: Client },
}

impl View for Build {
    type V = BuildView;

    open spec fn view(&self) -> BuildView {
        match self {
            Build::Pulling { client, params } => BuildView::Pulling {
                client: *client,
                params: params@,
            },
            Build::Creating { client } => BuildView::Creating { client: *client },
            Build::Starting { client, id } => BuildView::Starting { client: *client, id: id@ },
            Build::Inspecting { client } => BuildView::Inspecting { client: *client },
        }
    }
}

impl BuildView {
    /// The connection the build's requests are meant for.
    pub open spec fn client(self) -> Client {
        match self {
            BuildView::Pulling { client, .. } => client,
            BuildView::Creating { client } => client,
            BuildView::Starting { client, .. } => client,
            BuildView::Inspecting { client } => client,
        }
    }
}

/// Why a build ended without a container.
pub enum BuildError {
    /// The engine client reported this failure; it is passed on as it came.
    Engine(EngineError),
    /// The outcome handed in answers another request than the one under way.
    UnexpectedReply,
}

/// Where a build stands after an outcome.
pub enum Progress {
    /// The next request, and the build that waits for its outcome.
    Next(Build, Request),
    /// The container is created, started and inspected.
    Done(Container),
    /// The build is over.
    Failed(BuildError),
}

/// [`Progress`] in plain values.
pub enum ProgressView {
    Next(BuildView, RequestView),
    Done(ContainerView),
    Failed(BuildError),
}

impl View for Progress {
    type V = ProgressView;

    open spec fn view(&self) -> ProgressView {
        match self {
            Progress::Next(build, request) => ProgressView::Next(build@, request@),
            Progress::Done(container) => ProgressView::Done(container@),
            Progress::Failed(error) => ProgressView::Failed(*error),
        }
    }
}

/// How one request ended, in plain values.
pub type Outcome = Result<ReplyView, EngineError>;

/// The plain form of an outcome.
pub open spec fn outcome_view(outcome: Result<Reply, EngineError>) -> Outcome {
    match outcome {
        Ok(reply) => Ok(reply@),
        Err(error) => Err(error),
    }
}

/// How a build begins: with the pull if one is asked for, else with the
/// creation.
pub open spec fn opening(client: Client, params: ParamsView, pull: bool) -> ProgressView {
    if pull {
        ProgressView::Next(
            BuildView::Pulling { client, params },
            RequestView::Pull { image: params.image },
        )
    } else {
        ProgressView::Next(BuildView::Creating { client }, RequestView::Create { params })
    }
}

/// What follows when the request of `state` ends with `outcome`.
pub open spec fn step(state: BuildView, outcome: Outcome) -> ProgressView {
    match outcome {
        Err(error) => ProgressView::Failed(BuildError::Engine(error)),
        Ok(reply) => match (state, reply) {
            (BuildView::Pulling { client, params }, ReplyView::Pulled) => ProgressView::Next(
                BuildView::Creating { client },
                RequestView::Create { params },
            ),
            (BuildView::Creating { client }, ReplyView::Created { id }) => ProgressView::Next(
                BuildView::Starting { client, id },
                RequestView::Start { id },
            ),
            (BuildView::Starting { client, id }, ReplyView::Started) => ProgressView::Next(
                BuildView::Inspecting { client },
                RequestView::Inspect { id },
            ),
            (BuildView::Inspecting { client }, ReplyView::Inspected { details }) => {
                ProgressView::Done(ContainerView { client, details })
            },
            _ => ProgressView::Failed(BuildError::UnexpectedReply),
        },
    }
}

/// The pull request for `image`.
pub fn pull_request(image: String) -> (request: Request)
    ensures
        request@ == (RequestView::Pull { image: image@ }),
        request.well_formed(),
{
    let options = pull_options(image.as_str());
    Request::Pull { image, options }
}

/// Begins a build with the pull if `pull` is set, and with the creation if
/// it is not.
pub fn pull_image_if(client: Client, params: CreateParams, pull: bool) -> (start: (Build, Request))
    ensures
        ProgressView::Next(start.0@, start.1@) == opening(client, params@, pull),
        start.1.well_formed(),
{
    if pull {
        pull_image(client, params)
    } else {
        create_container(client, params)
    }
}

/// Asks for the image of `params`; the creation follows once it is there.
pub fn pull_image(client: Client, params: CreateParams) -> (next: (Build, Request))
    ensures
        next.0@ == (BuildView::Pulling { client, params: params@ }),
        next.1@ == (RequestView::Pull { image: params@.image }),
        next.1.well_formed(),
{
    let request = pull_request(params.image.clone());
    (Build::Pulling { client, params }, request)
}

/// Asks for a container made from `params`.
pub fn create_container(client: Client, params: CreateParams) -> (next: (Build, Request))
    ensures
        next.0@ == (BuildView::Creating { client }),
        next.1@ == (RequestView::Create { params: params@ }),
        next.1.well_formed(),
{
    let options = container_options(&params);
    (Build::Creating { client }, Request::Create { params, options })
}

/// Asks for the created container `id` to be started.
pub fn run_container(client: Client, id: String) -> (next: (Build, Request))
    ensures
        next.0@ == (BuildView::Starting { client, id: id@ }),
        next.1@ == (RequestView::Start { id: id@ }),
        next.1.well_formed(),
{
    let started = id.clone();
    (Build::Starting { client, id }, Request::Start { id: started })
}

/// Asks for an inspection of the started container `id`.
pub fn inspect_container(client: Client, id: String) -> (next: (Build, Request))
    ensures
        next.0@ == (BuildView::Inspecting { client }),
        next.1@ == (RequestView::Inspect { id: id@ }),
        next.1.well_formed(),
{
    (Build::Inspecting { client }, Request::Inspect { id })
}

impl Build {
    /// The connection on which the request under way is to be performed.
    pub fn client(&self) -> (client: &Client)
        ensures
            *client == self@.client(),
    {
        match self {
            Build::Pulling { client, .. } => client,
            Build::Creating { client } => client,
            Build::Starting { client, .. } => client,
            Build::Inspecting { client } => client,
        }
    }

    /// Takes the outcome of the request under way and says how the build
    /// goes on: with the next request, with the finished container, or not at
    /// all. A failure of the engine is passed on unchanged, and an answer to
    /// another request than the one under way ends the build as well.
    pub fn advance(self, outcome: Result<Reply, EngineError>) -> (progress: Progress)
        ensures
            progress@ == step(self@, outcome_view(outcome)),
            progress matches Progress::Next(_, request) ==> request.well_formed(),
    {
        match outcome {
            Err(error) => Progress::Failed(BuildError::Engine(error)),
            Ok(reply) => match (self, reply) {
                (Build::Pulling { client, params }, Reply::Pulled) => {
                    let (build, request) = create_container(client, params);
                    Progress::Next(build, request)
                },
                (Build::Creating { client }, Reply::Created { id }) => {
                    let (build, request) = run_container(client, id);
                    Progress::Next(build, request)
                },
                (Build::Starting { client, id }, Reply::Started) => {
                    let (build, request) = inspect_container(client, id);
                    Progress::Next(build, request)
                },
                (Build::Inspecting { client }, Reply::Inspected { details }) => Progress::Done(
                    Container::from_inspection(client, details),
                ),
                _ => Progress::Failed(BuildError::UnexpectedReply),
            },
        }
    }
}

/// Where a build stands once the requests it made, one after the other,
/// have ended with `outcomes`. Outcomes left over when the build is over
/// count for nothing.
pub open spec fn run(progress: ProgressView, outcomes: Seq<Outcome>) -> ProgressView
    decreases outcomes.len(),
{
    if outcomes.len() == 0 {
        progress
    } else {
        match progress {
            ProgressView::Next(state, _) => run(step(state, outcomes[0]), outcomes.drop_first()),
            _ => progress,
        }
    }
}

/// The requests a build makes while `outcomes` come in, in order.
pub open spec fn issued(progress: ProgressView, outcomes: Seq<Outcome>) -> Seq<RequestView>
    decreases outcomes.len(),
{
    match progress {
        ProgressView::Next(state, request) => if outcomes.len() == 0 {
            seq![request]
        } else {
            seq![request] + issued(step(state, outcomes[0]), outcomes.drop_first())
        },
        _ => Seq::empty(),
    }
}

/// The place of a request in the order of the steps; a removal is no step.
pub open spec fn position(request: RequestView) -> int {
    match request {
        RequestView::Pull { .. } => 0,
        RequestView::Create { .. } => 1,
        RequestView::Start { .. } => 2,
        RequestView::Inspect { .. } => 3,
        RequestView::Remove { .. } => 4,
    }
}

/// All requests of a build that reaches its end, for a container that the
/// engine created as `id`.
pub open spec fn full_sequence(params: ParamsView, pull: bool, id: Seq<char>) -> Seq<RequestView> {
    let steps = seq![
        RequestView::Create { params },
        RequestView::Start { id },
        RequestView::Inspect { id },
    ];
    if pull {
        seq![RequestView::Pull { image: params.image }] + steps
    } else {
        steps
    }
}

/// A build never hands out a container that was not started. If it ends
/// with a container, then the engine answered every step with success, in
/// order: the pull if there was one, the creation with an identifier, the
/// start of the container of that identifier, and its inspection. The
/// container holds that inspection and the connection of the build, and the
/// requests made are those of the whole sequence.
pub proof fn built_container_was_started(
    client: Client,
    params: ParamsView,
    pull: bool,
    outcomes: Seq<Outcome>,
)
    requires
        run(opening(client, params, pull), outcomes) is Done,
    ensures
        ({
            let first: int = if pull { 1 } else { 0 };
            let end = run(opening(client, params, pull), outcomes);
            &&& outcomes.len() >= first + 3
            &&& pull ==> outcomes[0] == Outcome::Ok(ReplyView::Pulled)
            &&& outcomes[first] matches Ok(ReplyView::Created { id })
            &&& outcomes[first + 1] == Outcome::Ok(ReplyView::Started)
            &&& end matches ProgressView::Done(container)
            &&& outcomes[first + 2] == Outcome::Ok(ReplyView::Inspected { details: container.details })
            &&& container.client == client
            &&& issued(opening(client, params, pull), outcomes) == full_sequence(params, pull, id)
        }),
{
    reveal_with_fuel(run, 5);
    reveal_with_fuel(issued, 5);
    let first: int = if pull { 1 } else { 0 };
    let start = opening(client, params, pull);
    assert(outcomes.len() >= 1);
    let second = outcomes.drop_first();
    assert(second.len() >= 1);
    let third = second.drop_first();
    assert(third.len() >= 1);
    let fourth = third.drop_first();
    if pull {
        assert(fourth.len() >= 1);
        let rest = fourth.drop_first();
        assert(outcomes[0] == Outcome::Ok(ReplyView::Pulled));
        let id = outcomes[1]->Ok_0->Created_id;
        assert(issued(start, outcomes) =~= full_sequence(params, pull, id));
    } else {
        let id = outcomes[0]->Ok_0->Created_id;
        assert(issued(start, outcomes) =~= full_sequence(params, pull, id));
    }
}

/// A built container has an identifier, as long as the engine reports none of
/// its containers without one: the identifier is the one of the inspection
/// that ended the build.
pub proof fn built_container_is_identified(
    client: Client,
    params: ParamsView,
    pull: bool,
    outcomes: Seq<Outcome>,
)
    requires
        run(opening(client, params, pull), outcomes) is Done,
        forall|i: int|
            0 <= i < outcomes.len() ==> ((#[trigger] outcomes[i]) matches Ok(
                ReplyView::Inspected { details },
            ) ==> details.id.len() > 0),
    ensures
        run(opening(client, params, pull), outcomes) matches ProgressView::Done(container)
            && container.details.id.len() > 0,
{
    built_container_was_started(client, params, pull, outcomes);
    let first: int = if pull { 1 } else { 0 };
    assert(outcomes[first + 2] is Ok);
}

/// Whatever the engine answers, a build asks for its steps one at a time and
/// in their order, starting with the pull or the creation; it asks for the
/// next step only after the one before succeeded, for none twice, and never
/// for a removal.
pub proof fn requests_keep_to_the_sequence(
    client: Client,
    params: ParamsView,
    pull: bool,
    outcomes: Seq<Outcome>,
)
    ensures
        ({
            let first: int = if pull { 0 } else { 1 };
            let requests = issued(opening(client, params, pull), outcomes);
            &&& 1 <= requests.len() <= 4 - first
            &&& requests.len() <= outcomes.len() + 1
            &&& forall|i: int|
                0 <= i < requests.len() ==> position(#[trigger] requests[i]) == first + i
            &&& forall|i: int| 0 <= i < requests.len() - 1 ==> (#[trigger] outcomes[i]) is Ok
        }),
{
    reveal_with_fuel(issued, 6);
    let second = outcomes.drop_first();
    let third = second.drop_first();
    let fourth = third.drop_first();
    let fifth = fourth.drop_first();
    assert(outcomes.len() >= 2 ==> outcomes[1] == second[0]);
    assert(outcomes.len() >= 3 ==> outcomes[2] == third[0]);
    assert(outcomes.len() >= 4 ==> outcomes[3] == fourth[0]);
}

/// The first failure ends the build, and it is the engine's own failure that
/// comes out: once a request has failed, the outcomes that follow change
/// nothing.
pub proof fn first_failure_ends_the_build(
    progress: ProgressView,
    outcomes: Seq<Outcome>,
    failed: int,
)
    requires
        0 <= failed < outcomes.len(),
        run(progress, outcomes.take(failed)) is Next,
        outcomes[failed] is Err,
    ensures
        run(progress, outcomes) == ProgressView::Failed(
            BuildError::Engine(outcomes[failed]->Err_0),
        ),
        issued(progress, outcomes).len() == failed + 1,
    decreases failed,
{
    reveal_with_fuel(run, 2);
    reveal_with_fuel(issued, 2);
    if failed == 0 {
        assert(outcomes.take(0).len() == 0);
    } else {
        let rest = outcomes.drop_first();
        assert(outcomes.take(failed).drop_first() =~= rest.take(failed - 1));
        assert(outcomes.take(failed)[0] == outcomes[0]);
        match progress {
            ProgressView::Next(state, _) => {
                first_failure_ends_the_build(step(state, outcomes[0]), rest, failed - 1);
            },
            _ => {},
        }
    }
}

} // verus!
