//! The network exposure of a `FoxService`: the ports on which it is reached.

use crate::request::{Request, RequestView};
use crate::resource::{FoxServiceSpec, FoxServiceSpecView, IngressPort, IngressPortView};
use vstd::prelude::*;

verus! {

/// A port of the exposure and the port of the backend that it forwards to.
#[derive(Clone, Debug, PartialEq, Eq)]
pub struct ServicePort {
    pub port: i32,
    pub target_port: i32,
}

/// A network exposure, ready to be handed to the control plane. It names no
/// backend: no selector ties it to the pods of a workload.
#[derive(Clone, Debug, PartialEq, Eq)]
pub struct ExposureDescriptor {
    pub name: String,
    pub namespace: String,
    /// `None` where the resource declares no ingress at all.
    pub ports: Option<Vec<ServicePort>>,
}

/// A [`ServicePort`] as a mathematical value.
pub struct ServicePortView {
    pub port: i32,
    pub target_port: i32,
}

/// An [`ExposureDescriptor`] as a mathematical value.
pub struct ExposureDescriptorView {
    pub name: Seq<char>,
    pub namespace: Seq<char>,
    pub ports: Option<Seq<ServicePortView>>,
}

impl ExposureDescriptorView {
    /// How many ports the exposure opens.
    pub open spec fn port_count(self) -> nat {
        match self.ports {
            Some(ports) => ports.len(),
            None => 0,
        }
    }
}

impl View for ServicePort {
    type V = ServicePortView;

    open spec fn view(&self) -> ServicePortView {
        ServicePortView { port: self.port, target_port: self.target_port }
    }
}

impl DeepView for ServicePort {
    type V = ServicePortView;

    open spec fn deep_view(&self) -> ServicePortView {
        self@
    }
}

impl View for ExposureDescriptor {
    type V = ExposureDescriptorView;

    open spec fn view(&self) -> ExposureDescriptorView {
        ExposureDescriptorView {
            name: self.name@,
            namespace: self.namespace@,
            ports: self.ports.deep_view(),
        }
    }
}

/// One port per ingress entry, in the declared order, each forwarding to the
/// backend port of the same number.
pub open spec fn service_ports_of(ingress: Seq<IngressPortView>) -> Seq<ServicePortView> {
    Seq::new(
        ingress.len(),
        |i: int| ServicePortView { port: ingress[i].port, target_port: ingress[i].port },
    )
}

/// The exposure that `spec` declares under the given identity.
pub open spec fn exposure_of(
    spec: FoxServiceSpecView,
    name: Seq<char>,
    namespace: Seq<char>,
) -> ExposureDescriptorView {
    ExposureDescriptorView {
        name,
        namespace,
        ports: match spec.http_ingress {
            Some(ingress) => Some(service_ports_of(ingress)),
            None => None,
        },
    }
}

fn service_ports(ingress: &Vec<IngressPort>) -> (out: Vec<ServicePort>)
    ensures
        out.deep_view() == service_ports_of(ingress.deep_view()),
{
    let mut out: Vec<ServicePort> = Vec::new();
    let mut i: usize = 0;
    while i < ingress.len()
        invariant
            i <= ingress.len(),
            out.len() == i,
            forall|j: int|
                0 <= j < i ==> (#[trigger] out[j]).port == ingress[j].port && out[j].target_port
                    == ingress[j].port,
        decreases ingress.len() - i,
    {
        let port = ingress[i].port;
        out.push(ServicePort { port, target_port: port });
        i += 1;
    }
    assert(out.deep_view() =~= service_ports_of(ingress.deep_view()));
    out
}

/// Builds the exposure that `fs` declares, under the given name and
/// namespace.
pub fn build_service(fs: &FoxServiceSpec, name: &str, namespace: &str) -> (service:
    ExposureDescriptor)
    ensures
        service@ == exposure_of(fs@, name@, namespace@),
        fs@.http_ingress is None ==> service@.port_count() == 0,
        fs@.http_ingress matches Some(ingress) ==> service@.ports matches Some(ports)
            && ports.len() == ingress.len() && forall|i: int|
            0 <= i < ports.len() ==> (#[trigger] ports[i]).port == ingress[i].port
                && ports[i].target_port == ports[i].port,
{
    let ports = match &fs.http_ingress {
        Some(ingress) => Some(service_ports(ingress)),
        None => None,
    };
    ExposureDescriptor { name: name.to_owned(), namespace: namespace.to_owned(), ports }
}

/// The call that creates the exposure that `fs` declares, under the given
/// name and namespace. Whether such an exposure exists already is not looked
/// at.
pub fn create_service(fs: &FoxServiceSpec, name: &str, namespace: &str) -> (request: Request)
    ensures
        request@ == RequestView::CreateService(exposure_of(fs@, name@, namespace@)),
{
    Request::CreateService(build_service(fs, name, namespace))
}

/// The call that deletes the exposure of that name. Whether it exists is not
/// looked at.
pub fn delete_service(name: &str, namespace: &str) -> (request: Request)
    ensures
        request@ == (RequestView::DeleteService { name: name@, namespace: namespace@ }),
{
    Request::DeleteService { name: name.to_owned(), namespace: namespace.to_owned() }
}

} // verus!
