use dockside::sequence::{
    create_container, inspect_container, pull_image, pull_image_if, pull_request, run_container,
};
use dockside::{
    Build, BuildError, Client, ContainerBuilder, ContainerDetails, CreateParams, Port,
    PortDescription, Progress, Protocol, Reply, Request,
};
use shiplift::Docker;
use std::collections::HashMap;
use std::sync::Arc;

fn client() -> Client {
    Arc::new(Docker::unix("/var/run/docker.sock"))
}

fn params() -> CreateParams {
    CreateParams {
        image: "redis:latest".to_string(),
        name: Some("cache".to_string()),
        ports: vec![Port { source: 6379, host: 6379, protocol: Protocol::Tcp }],
    }
}

fn details(id: &str) -> ContainerDetails {
    let mut binding = HashMap::new();
    binding.insert("HostIp".to_string(), "0.0.0.0".to_string());
    binding.insert("HostPort".to_string(), "6379".to_string());
    let mut ports: PortDescription = HashMap::new();
    ports.insert("6379/tcp".to_string(), Some(vec![binding]));
    ports.insert("6380/tcp".to_string(), None);
    ContainerDetails { id: id.to_string(), ports: Some(ports) }
}

fn next(progress: Progress) -> (Build, Request) {
    match progress {
        Progress::Next(build, request) => (build, request),
        Progress::Done(_) => panic!("the build is done too early"),
        Progress::Failed(_) => panic!("the build failed"),
    }
}

fn failure(progress: Progress) -> BuildError {
    match progress {
        Progress::Failed(error) => error,
        _ => panic!("the build went on after a failure"),
    }
}

#[test]
fn end_to_end_redis_cache() {
    let client = client();
    let builder = ContainerBuilder::new(&client, "redis")
        .name("cache")
        .slug_length(0)
        .expose(Port { source: 6379, host: 6379, protocol: Protocol::Tcp });

    let (build, request) = builder.build();
    assert!(Arc::ptr_eq(build.client(), &client));
    match request {
        Request::Create { params, options } => {
            assert_eq!(params.image, "redis:latest");
            assert_eq!(params.name, Some("cache".to_string()));
            assert_eq!(
                params.ports,
                vec![Port { source: 6379, host: 6379, protocol: Protocol::Tcp }]
            );
            assert_eq!(options.name, Some("cache".to_string()));
            let body = options.serialize().expect("creation parameters serialise");
            assert!(body.contains("\"Image\":\"redis:latest\""));
            assert!(body.contains("\"6379/tcp\":[{\"HostPort\":\"6379\"}]"));
        }
        _ => panic!("the first request is the creation"),
    }

    let (build, request) = next(build.advance(Ok(Reply::Created { id: "4f2a".to_string() })));
    match request {
        Request::Start { id } => assert_eq!(id, "4f2a"),
        _ => panic!("the second request is the start"),
    }

    let (build, request) = next(build.advance(Ok(Reply::Started)));
    match request {
        Request::Inspect { id } => assert_eq!(id, "4f2a"),
        _ => panic!("the third request is the inspection"),
    }

    match build.advance(Ok(Reply::Inspected { details: details("4f2a") })) {
        Progress::Done(container) => {
            assert_eq!(container.id(), "4f2a");
            assert!(!container.id().is_empty());
        }
        _ => panic!("the inspection ends the build"),
    }
}

#[test]
fn pull_comes_before_the_creation_when_asked_for() {
    let client = client();
    let (build, request) = pull_image_if(Arc::clone(&client), params(), true);
    assert!(matches!(build, Build::Pulling { .. }));
    match request {
        Request::Pull { image, options } => {
            assert_eq!(image, "redis:latest");
            assert_eq!(options.serialize(), Some("fromImage=redis%3Alatest".to_string()));
        }
        _ => panic!("the first request is the pull"),
    }
    let (build, request) = next(build.advance(Ok(Reply::Pulled)));
    assert!(matches!(build, Build::Creating { .. }));
    match request {
        Request::Create { params, .. } => {
            assert_eq!(params.image, "redis:latest");
            assert_eq!(params.name, Some("cache".to_string()));
            assert_eq!(params.ports.len(), 1);
        }
        _ => panic!("the creation follows the pull"),
    }
}

#[test]
fn no_pull_when_not_asked_for() {
    let client = client();
    let (build, request) = pull_image_if(Arc::clone(&client), params(), false);
    assert!(matches!(build, Build::Creating { .. }));
    assert!(matches!(request, Request::Create { .. }));
}

#[test]
fn each_step_asks_for_its_own_request() {
    let client = client();
    let (build, request) = pull_image(Arc::clone(&client), params());
    assert!(matches!(build, Build::Pulling { .. }));
    assert!(matches!(request, Request::Pull { .. }));

    let (build, request) = create_container(Arc::clone(&client), params());
    assert!(matches!(build, Build::Creating { .. }));
    assert!(matches!(request, Request::Create { .. }));

    let (build, request) = run_container(Arc::clone(&client), "abc".to_string());
    match (build, request) {
        (Build::Starting { id: held, .. }, Request::Start { id }) => {
            assert_eq!(held, "abc");
            assert_eq!(id, "abc");
        }
        _ => panic!("a start was asked for"),
    }

    let (build, request) = inspect_container(Arc::clone(&client), "abc".to_string());
    match (build, request) {
        (Build::Inspecting { .. }, Request::Inspect { id }) => assert_eq!(id, "abc"),
        _ => panic!("an inspection was asked for"),
    }
}

#[test]
fn pull_request_names_the_image() {
    match pull_request("busybox:1.36".to_string()) {
        Request::Pull { image, options } => {
            assert_eq!(image, "busybox:1.36");
            assert_eq!(options.serialize(), Some("fromImage=busybox%3A1.36".to_string()));
        }
        _ => panic!("a pull was asked for"),
    }
}

#[test]
fn engine_failure_is_passed_on_at_every_step() {
    let client = client();

    let (build, _) = pull_image(Arc::clone(&client), params());
    let error = failure(build.advance(Err(shiplift::Error::ConnectionNotUpgraded)));
    assert!(matches!(error, BuildError::Engine(shiplift::Error::ConnectionNotUpgraded)));

    let (build, _) = create_container(Arc::clone(&client), params());
    let error =
        failure(build.advance(Err(shiplift::Error::InvalidResponse("name taken".to_string()))));
    match error {
        BuildError::Engine(shiplift::Error::InvalidResponse(cause)) => {
            assert_eq!(cause, "name taken")
        }
        _ => panic!("the engine's failure comes out as it went in"),
    }

    let (build, _) = run_container(Arc::clone(&client), "abc".to_string());
    let error =
        failure(build.advance(Err(shiplift::Error::InvalidResponse("port in use".to_string()))));
    match error {
        BuildError::Engine(shiplift::Error::InvalidResponse(cause)) => {
            assert_eq!(cause, "port in use")
        }
        _ => panic!("the engine's failure comes out as it went in"),
    }

    let (build, _) = inspect_container(Arc::clone(&client), "abc".to_string());
    let error = failure(build.advance(Err(shiplift::Error::ConnectionNotUpgraded)));
    assert!(matches!(error, BuildError::Engine(shiplift::Error::ConnectionNotUpgraded)));
}

#[test]
fn failed_start_yields_no_container() {
    let client = client();
    let (build, _) = ContainerBuilder::new(&client, "redis").build();
    let (build, _) = next(build.advance(Ok(Reply::Created { id: "abc".to_string() })));
    let progress = build.advance(Err(shiplift::Error::InvalidResponse("conflict".to_string())));
    assert!(matches!(progress, Progress::Failed(BuildError::Engine(_))));
}

#[test]
fn reply_to_another_request_ends_the_build() {
    let client = client();

    let (build, _) = create_container(Arc::clone(&client), params());
    let error = failure(build.advance(Ok(Reply::Started)));
    assert!(matches!(error, BuildError::UnexpectedReply));

    let (build, _) = create_container(Arc::clone(&client), params());
    let error = failure(build.advance(Ok(Reply::Inspected { details: details("abc") })));
    assert!(matches!(error, BuildError::UnexpectedReply));

    let (build, _) = pull_image(Arc::clone(&client), params());
    let error = failure(build.advance(Ok(Reply::Created { id: "abc".to_string() })));
    assert!(matches!(error, BuildError::UnexpectedReply));

    let (build, _) = run_container(Arc::clone(&client), "abc".to_string());
    let error = failure(build.advance(Ok(Reply::Pulled)));
    assert!(matches!(error, BuildError::UnexpectedReply));

    let (build, _) = inspect_container(Arc::clone(&client), "abc".to_string());
    let error = failure(build.advance(Ok(Reply::Removed)));
    assert!(matches!(error, BuildError::UnexpectedReply));
}
