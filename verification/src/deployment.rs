//! The workload that realises a `FoxService`: one replicated set of pods that
//! run the declared containers.

use crate::request::{Request, RequestView};
use crate::resource::{
    clone_strings, ContainerSpec, ContainerSpecView, FoxServiceSpec, FoxServiceSpecView,
};
use std::collections::BTreeMap;
use vstd::prelude::*;
use vstd::std_specs::btree::{increasing_seq, key_obeys_cmp_spec, spec_btree_map_iter};
use vstd::std_specs::cmp::OrdSpec;
use vstd::std_specs::iter::IteratorSpec;

verus! {

/// The pull policy that every container of a workload gets.
pub const IMAGE_PULL_POLICY: &'static str = "Always";

/// An environment variable of a container.
#[derive(Clone, Debug, PartialEq, Eq)]
pub struct EnvVar {
    pub name: String,
    pub value: String,
}

/// A port of a container and the port of the host that it is bound to.
#[derive(Clone, Debug, PartialEq, Eq)]
pub struct ContainerPort {
    pub container_port: i32,
    pub host_port: i32,
}

/// One container of a workload.
#[derive(Clone, Debug, PartialEq, Eq)]
pub struct ContainerDescriptor {
    pub name: String,
    pub image: String,
    pub image_pull_policy: String,
    pub args: Option<Vec<String>>,
    pub env: Option<Vec<EnvVar>>,
    pub ports: Option<Vec<ContainerPort>>,
}

/// A replicated workload, ready to be handed to the control plane.
#[derive(Clone, Debug, PartialEq, Eq)]
pub struct WorkloadDescriptor {
    pub name: String,
    pub namespace: String,
    pub replicas: i32,
    pub containers: Vec<ContainerDescriptor>,
}

/// An [`EnvVar`] as a mathematical value.
pub struct EnvVarView {
    pub name: Seq<char>,
    pub value: Seq<char>,
}

/// A [`ContainerPort`] as a mathematical value.
pub struct ContainerPortView {
    pub container_port: i32,
    pub host_port: i32,
}

/// A [`ContainerDescriptor`] as a mathematical value.
pub struct ContainerDescriptorView {
    pub name: Seq<char>,
    pub image: Seq<char>,
    pub image_pull_policy: Seq<char>,
    pub args: Option<Seq<Seq<char>>>,
    pub env: Option<Seq<EnvVarView>>,
    pub ports: Option<Seq<ContainerPortView>>,
}

/// A [`WorkloadDescriptor`] as a mathematical value.
pub struct WorkloadDescriptorView {
    pub name: Seq<char>,
    pub namespace: Seq<char>,
    pub replicas: i32,
    pub containers: Seq<ContainerDescriptorView>,
}

impl View for EnvVar {
    type V = EnvVarView;

    open spec fn view(&self) -> EnvVarView {
        EnvVarView { name: self.name@, value: self.value@ }
    }
}

impl DeepView for EnvVar {
    type V = EnvVarView;

    open spec fn deep_view(&self) -> EnvVarView {
        self@
    }
}

impl View for ContainerPort {
    type V = ContainerPortView;

    open spec fn view(&self) -> ContainerPortView {
        ContainerPortView { container_port: self.container_port, host_port: self.host_port }
    }
}

impl DeepView for ContainerPort {
    type V = ContainerPortView;

    open spec fn deep_view(&self) -> ContainerPortView {
        self@
    }
}

impl View for ContainerDescriptor {
    type V = ContainerDescriptorView;

    open spec fn view(&self) -> ContainerDescriptorView {
        ContainerDescriptorView {
            name: self.name@,
            image: self.image@,
            image_pull_policy: self.image_pull_policy@,
            args: self.args.deep_view(),
            env: self.env.deep_view(),
            ports: self.ports.deep_view(),
        }
    }
}

impl DeepView for ContainerDescriptor {
    type V = ContainerDescriptorView;

    open spec fn deep_view(&self) -> ContainerDescriptorView {
        self@
    }
}

impl View for WorkloadDescriptor {
    type V = WorkloadDescriptorView;

    open spec fn view(&self) -> WorkloadDescriptorView {
        WorkloadDescriptorView {
            name: self.name@,
            namespace: self.namespace@,
            replicas: self.replicas,
            containers: self.containers.deep_view(),
        }
    }
}

/// The environment of a container: one variable per declared entry, entry by
/// entry in the declared order.
pub open spec fn env_vars_of(env: Seq<(Seq<char>, Seq<char>)>) -> Seq<EnvVarView> {
    Seq::new(env.len(), |i: int| EnvVarView { name: env[i].0, value: env[i].1 })
}

/// `listing` holds each entry of `ports` exactly once, by increasing host port.
pub open spec fn lists_ports(ports: Map<i32, i32>, listing: Seq<ContainerPortView>) -> bool {
    &&& listing.len() == ports.dom().len()
    &&& forall|i: int|
        0 <= i < listing.len() ==> ports.contains_key(#[trigger] listing[i].host_port)
            && ports[listing[i].host_port] == listing[i].container_port
    &&& forall|i: int, j: int|
        0 <= i < j < listing.len() ==> #[trigger] listing[i].host_port
            < #[trigger] listing[j].host_port
    &&& forall|host: i32| #[trigger]
        ports.contains_key(host) ==> exists|i: int|
            0 <= i < listing.len() && #[trigger] listing[i].host_port == host
}

/// `container` is what `spec` declares: name, image and arguments as they are,
/// the fixed pull policy, and every environment entry and port mapping once.
pub open spec fn describes_container(
    spec: ContainerSpecView,
    container: ContainerDescriptorView,
) -> bool {
    &&& container.name == spec.name
    &&& container.image == spec.image
    &&& container.image_pull_policy == IMAGE_PULL_POLICY@
    &&& container.args == spec.args
    &&& match spec.env {
        Some(env) => container.env == Some(env_vars_of(env)),
        None => container.env is None,
    }
    &&& match spec.ports {
        Some(ports) => container.ports matches Some(listing) && lists_ports(ports, listing),
        None => container.ports is None,
    }
}

/// `workload` is the workload that `spec` declares under the given identity:
/// the replica count as it is, and one container per declared container, in
/// the declared order.
pub open spec fn describes_workload(
    spec: FoxServiceSpecView,
    name: Seq<char>,
    namespace: Seq<char>,
    workload: WorkloadDescriptorView,
) -> bool {
    &&& workload.name == name
    &&& workload.namespace == namespace
    &&& workload.replicas == spec.replicas
    &&& workload.containers.len() == spec.containers.len()
    &&& forall|i: int|
        0 <= i < workload.containers.len() ==> describes_container(
            spec.containers[i],
            #[trigger] workload.containers[i],
        )
}

/// Nothing that is declared is lost, changed or doubled on the way into the
/// workload: the replica count stays, each declared container has its one
/// descriptor with the same name, image and arguments, each environment entry
/// is the variable at the same position, and the ports are as many as the
/// mappings, each host port bound once to its container port.
pub proof fn lemma_workload_keeps_what_is_declared(
    spec: FoxServiceSpecView,
    name: Seq<char>,
    namespace: Seq<char>,
    workload: WorkloadDescriptorView,
)
    requires
        describes_workload(spec, name, namespace, workload),
    ensures
        workload.replicas == spec.replicas,
        workload.containers.len() == spec.containers.len(),
        forall|i: int|
            #![trigger workload.containers[i]]
            0 <= i < spec.containers.len() ==> {
                &&& workload.containers[i].name == spec.containers[i].name
                &&& workload.containers[i].image == spec.containers[i].image
                &&& workload.containers[i].args == spec.containers[i].args
                &&& workload.containers[i].env is Some <==> spec.containers[i].env is Some
                &&& workload.containers[i].ports is Some <==> spec.containers[i].ports is Some
            },
        forall|i: int, k: int|
            #![trigger workload.containers[i].env->0[k]]
            0 <= i < spec.containers.len() && spec.containers[i].env is Some && 0 <= k
                < spec.containers[i].env->0.len() ==> {
                &&& workload.containers[i].env->0.len() == spec.containers[i].env->0.len()
                &&& workload.containers[i].env->0[k].name == spec.containers[i].env->0[k].0
                &&& workload.containers[i].env->0[k].value == spec.containers[i].env->0[k].1
            },
        forall|i: int, host: i32|
            #![trigger workload.containers[i], spec.containers[i].ports->0.contains_key(host)]
            0 <= i < spec.containers.len() && spec.containers[i].ports is Some
                && spec.containers[i].ports->0.contains_key(host) ==> {
                &&& workload.containers[i].ports->0.len() == spec.containers[i].ports->0.dom().len()
                &&& exists|k: int|
                    0 <= k < workload.containers[i].ports->0.len()
                        && #[trigger] workload.containers[i].ports->0[k] == (ContainerPortView {
                        host_port: host,
                        container_port: spec.containers[i].ports->0[host],
                    })
            },
{
    assert forall|i: int, host: i32|
        #![trigger workload.containers[i], spec.containers[i].ports->0.contains_key(host)]
        0 <= i < spec.containers.len() && spec.containers[i].ports is Some
            && spec.containers[i].ports->0.contains_key(host) implies {
        &&& workload.containers[i].ports->0.len() == spec.containers[i].ports->0.dom().len()
        &&& exists|k: int|
            0 <= k < workload.containers[i].ports->0.len()
                && #[trigger] workload.containers[i].ports->0[k] == (ContainerPortView {
                host_port: host,
                container_port: spec.containers[i].ports->0[host],
            })
    } by {
        let listing = workload.containers[i].ports->0;
        assert(describes_container(spec.containers[i], workload.containers[i]));
        let k = choose|k: int| 0 <= k < listing.len() && #[trigger] listing[k].host_port == host;
        assert(listing[k] == (ContainerPortView {
            host_port: host,
            container_port: spec.containers[i].ports->0[host],
        }));
    }
}

/// Two listings of the same port mappings open with the same host ports.
proof fn lemma_listings_agree_on_hosts(
    ports: Map<i32, i32>,
    a: Seq<ContainerPortView>,
    b: Seq<ContainerPortView>,
    i: int,
)
    requires
        lists_ports(ports, a),
        lists_ports(ports, b),
        0 <= i < a.len(),
    ensures
        a[i].host_port == b[i].host_port,
    decreases i,
{
    assert forall|j: int| 0 <= j < i implies a[j].host_port == b[j].host_port by {
        lemma_listings_agree_on_hosts(ports, a, b, j);
    }
    assert(ports.contains_key(a[i].host_port));
    let in_b = choose|k: int| 0 <= k < b.len() && #[trigger] b[k].host_port == a[i].host_port;
    if in_b < i {
        assert(a[in_b].host_port < a[i].host_port);
    }
    assert(ports.contains_key(b[i].host_port));
    let in_a = choose|k: int| 0 <= k < a.len() && #[trigger] a[k].host_port == b[i].host_port;
    if in_a < i {
        assert(b[in_a].host_port < b[i].host_port);
    }
    if i < in_b {
        assert(b[i].host_port < b[in_b].host_port);
    }
    if i < in_a {
        assert(a[i].host_port < a[in_a].host_port);
    }
}

/// Port mappings have one listing only.
pub proof fn lemma_port_listing_is_unique(
    ports: Map<i32, i32>,
    a: Seq<ContainerPortView>,
    b: Seq<ContainerPortView>,
)
    requires
        lists_ports(ports, a),
        lists_ports(ports, b),
    ensures
        a == b,
{
    assert forall|i: int| 0 <= i < a.len() implies a[i] == b[i] by {
        lemma_listings_agree_on_hosts(ports, a, b, i);
        assert(ports.contains_key(a[i].host_port));
        assert(ports.contains_key(b[i].host_port));
    }
    assert(a =~= b);
}

/// The container that describes a well-formed specification names no
/// environment variable twice and binds no host port twice.
pub proof fn lemma_described_entries_are_distinct(
    spec: ContainerSpecView,
    container: ContainerDescriptorView,
)
    requires
        spec.well_formed(),
        describes_container(spec, container),
    ensures
        container.env matches Some(env) ==> forall|i: int, j: int|
            0 <= i < j < env.len() ==> (#[trigger] env[i]).name != (#[trigger] env[j]).name,
        container.ports matches Some(ports) ==> forall|i: int, j: int|
            0 <= i < j < ports.len() ==> (#[trigger] ports[i]).host_port
                != (#[trigger] ports[j]).host_port,
{
    if let Some(env) = container.env {
        let declared = spec.env_entries();
        assert forall|i: int, j: int| 0 <= i < j < env.len() implies (#[trigger] env[i]).name
            != (#[trigger] env[j]).name by {
            assert(declared[i].0 != declared[j].0);
        }
    }
}

/// A container specification is described by one container only.
pub proof fn lemma_container_is_unique(
    spec: ContainerSpecView,
    a: ContainerDescriptorView,
    b: ContainerDescriptorView,
)
    requires
        describes_container(spec, a),
        describes_container(spec, b),
    ensures
        a == b,
{
    if let Some(ports) = spec.ports {
        lemma_port_listing_is_unique(ports, a.ports->0, b.ports->0);
    }
}

/// What `build_deployment` promises leaves no choice: a specification is
/// described, under one identity, by one workload only.
pub proof fn lemma_workload_is_unique(
    spec: FoxServiceSpecView,
    name: Seq<char>,
    namespace: Seq<char>,
    a: WorkloadDescriptorView,
    b: WorkloadDescriptorView,
)
    requires
        describes_workload(spec, name, namespace, a),
        describes_workload(spec, name, namespace, b),
    ensures
        a == b,
{
    assert forall|i: int| 0 <= i < a.containers.len() implies a.containers[i]
        == b.containers[i] by {
        lemma_container_is_unique(spec.containers[i], a.containers[i], b.containers[i]);
    }
    assert(a.containers =~= b.containers);
}

fn env_vars(env: &Vec<(String, String)>) -> (out: Vec<EnvVar>)
    ensures
        out.deep_view() == env_vars_of(env.deep_view()),
{
    let mut out: Vec<EnvVar> = Vec::new();
    let mut i: usize = 0;
    while i < env.len()
        invariant
            i <= env.len(),
            out.len() == i,
            forall|j: int|
                0 <= j < i ==> out[j].name@ == env[j].0@ && out[j].value@ == env[j].1@,
        decreases env.len() - i,
    {
        let entry = &env[i];
        out.push(EnvVar { name: entry.0.clone(), value: entry.1.clone() });
        i += 1;
    }
    assert(out.deep_view() =~= env_vars_of(env.deep_view()));
    out
}

fn container_ports(ports: &BTreeMap<i32, i32>) -> (out: Vec<ContainerPort>)
    ensures
        lists_ports(ports@, out.deep_view()),
{
    let mut out: Vec<ContainerPort> = Vec::new();
    let ghost entries = spec_btree_map_iter(ports).remaining();
    for entry in it: ports.iter()
        invariant
            it.seq() == entries,
            out.len() == it.index(),
            forall|j: int|
                0 <= j < out.len() ==> (#[trigger] out[j]).host_port == *entries[j].0
                    && out[j].container_port == *entries[j].1,
    {
        let (host, container) = entry;
        out.push(ContainerPort { container_port: *container, host_port: *host });
    }
    proof {
        let hosts = entries.map_values(|kv: (&i32, &i32)| *kv.0);
        let listing = out.deep_view();
        assert(key_obeys_cmp_spec::<i32>());
        assert(increasing_seq(hosts));
        assert forall|i: int, j: int| 0 <= i < j < listing.len() implies #[trigger] listing[i].host_port
            < #[trigger] listing[j].host_port by {
            assert(hosts[i].cmp_spec(&hosts[j]) is Less);
        }
        assert forall|i: int| 0 <= i < listing.len() implies ports@.contains_key(
            #[trigger] listing[i].host_port,
        ) && ports@[listing[i].host_port] == listing[i].container_port by {
            assert(ports@.contains_key(*entries[i].0));
        }
        assert forall|host: i32| #[trigger] ports@.contains_key(host) implies exists|i: int|
            0 <= i < listing.len() && #[trigger] listing[i].host_port == host by {
            let value = ports@[host];
            assert(entries.contains((&host, &value)));
            let i = choose|i: int| 0 <= i < entries.len() && entries[i] == (&host, &value);
            assert(listing[i].host_port == host);
        }
    }
    out
}

/// Builds the container that `spec` declares.
pub fn build_container(spec: &ContainerSpec) -> (container: ContainerDescriptor)
    ensures
        describes_container(spec@, container@),
{
    let args = match &spec.args {
        Some(args) => Some(clone_strings(args)),
        None => None,
    };
    let env = match &spec.env {
        Some(env) => Some(env_vars(env)),
        None => None,
    };
    let ports = match &spec.ports {
        Some(ports) => Some(container_ports(ports)),
        None => None,
    };
    ContainerDescriptor {
        name: spec.name.clone(),
        image: spec.image.clone(),
        image_pull_policy: IMAGE_PULL_POLICY.to_owned(),
        args,
        env,
        ports,
    }
}

/// Builds the workload that `fs` declares, under the given name and
/// namespace.
pub fn build_deployment(fs: &FoxServiceSpec, name: &str, namespace: &str) -> (workload:
    WorkloadDescriptor)
    ensures
        describes_workload(fs@, name@, namespace@, workload@),
{
    let mut containers: Vec<ContainerDescriptor> = Vec::new();
    let mut i: usize = 0;
    while i < fs.containers.len()
        invariant
            i <= fs.containers.len(),
            containers.len() == i,
            forall|j: int|
                0 <= j < i ==> describes_container(fs.containers[j]@, #[trigger] containers[j]@),
        decreases fs.containers.len() - i,
    {
        containers.push(build_container(&fs.containers[i]));
        i += 1;
    }
    WorkloadDescriptor {
        name: name.to_owned(),
        namespace: namespace.to_owned(),
        replicas: fs.replicas,
        containers,
    }
}

/// The call that creates the workload that `fs` declares, under the given
/// name and namespace. Whether such a workload exists already is not looked
/// at.
pub fn create_deployment(fs: &FoxServiceSpec, name: &str, namespace: &str) -> (request: Request)
    ensures
        request matches Request::CreateDeployment(workload) && describes_workload(
            fs@,
            name@,
            namespace@,
            workload@,
        ),
{
    Request::CreateDeployment(build_deployment(fs, name, namespace))
}

/// The call that deletes the workload of that name. Whether it exists is not
/// looked at.
pub fn delete_deployment(name: &str, namespace: &str) -> (request: Request)
    ensures
        request@ == (RequestView::DeleteDeployment { name: name@, namespace: namespace@ }),
{
    Request::DeleteDeployment { name: name.to_owned(), namespace: namespace.to_owned() }
}

} // verus!
