use dockside::sequence::inspect_container;
use dockside::{
    Client, Container, ContainerDetails, PortDescription, Progress, Reply, Request,
};
use shiplift::Docker;
use std::collections::HashMap;
use std::sync::Arc;

fn client() -> Client {
    Arc::new(Docker::unix("/var/run/docker.sock"))
}

fn bindings() -> PortDescription {
    let mut binding = HashMap::new();
    binding.insert("HostIp".to_string(), "0.0.0.0".to_string());
    binding.insert("HostPort".to_string(), "32768".to_string());
    let mut ports: PortDescription = HashMap::new();
    ports.insert("6379/tcp".to_string(), Some(vec![binding]));
    ports.insert("6380/tcp".to_string(), None);
    ports
}

fn inspected(client: &Client, details: ContainerDetails) -> Container {
    let (build, _) = inspect_container(Arc::clone(client), details.id.clone());
    match build.advance(Ok(Reply::Inspected { details })) {
        Progress::Done(container) => container,
        _ => panic!("the inspection ends the build"),
    }
}

#[test]
fn id_is_the_inspected_identifier() {
    let client = client();
    let container =
        inspected(&client, ContainerDetails { id: "9c1d7e".to_string(), ports: None });
    assert_eq!(container.id(), "9c1d7e");
}

#[test]
fn ports_are_the_inspected_bindings() {
    let client = client();
    let container = inspected(
        &client,
        ContainerDetails { id: "9c1d7e".to_string(), ports: Some(bindings()) },
    );
    assert_eq!(container.ports(), &Some(bindings()));
    let ports = container.ports().as_ref().expect("bindings were reported");
    assert_eq!(ports["6379/tcp"].as_ref().map(|b| b[0]["HostPort"].as_str()), Some("32768"));
    assert_eq!(ports["6380/tcp"], None);
}

#[test]
fn ports_without_bindings() {
    let client = client();
    let container =
        inspected(&client, ContainerDetails { id: "9c1d7e".to_string(), ports: None });
    assert_eq!(container.ports(), &None);
}

#[test]
fn ports_read_twice_are_identical() {
    let client = client();
    let container = inspected(
        &client,
        ContainerDetails { id: "9c1d7e".to_string(), ports: Some(bindings()) },
    );
    let first = container.ports().clone();
    let second = container.ports().clone();
    assert_eq!(first, second);
    assert!(std::ptr::eq(container.ports(), container.ports()));
}

#[test]
fn delete_forces_the_removal() {
    let client = client();
    let container = inspected(
        &client,
        ContainerDetails { id: "9c1d7e".to_string(), ports: Some(bindings()) },
    );
    let call = container.delete();
    assert!(Arc::ptr_eq(&call.client, &client));
    match call.request {
        Request::Remove { id, force, options } => {
            assert_eq!(id, "9c1d7e");
            assert!(force);
            assert_eq!(options.serialize(), Some("force=true".to_string()));
        }
        _ => panic!("a removal was asked for"),
    }
}
