//! The declared resource: its specification, identity and lifecycle metadata.

use std::collections::BTreeMap;
use vstd::prelude::*;

verus! {

/// A port on which the service accepts HTTP traffic from outside the cluster.
#[derive(Clone, Debug, PartialEq, Eq)]
pub struct IngressPort {
    pub port: i32,
}

/// One container of the declared workload.
#[derive(Clone, Debug, PartialEq, Eq)]
pub struct ContainerSpec {
    pub name: String,
    pub image: String,
    pub args: Option<Vec<String>>,
    /// Environment variables as pairs of name and value, in the order in
    /// which they are handed to the container. A well-formed container names
    /// no variable twice.
    pub env: Option<Vec<(String, String)>>,
    /// Host port to container port.
    pub ports: Option<BTreeMap<i32, i32>>,
}

/// What the user declares: how many replicas of which containers, and which
/// ports are exposed.
#[derive(Clone, Debug, PartialEq, Eq)]
pub struct FoxServiceSpec {
    pub replicas: i32,
    pub containers: Vec<ContainerSpec>,
    pub http_ingress: Option<Vec<IngressPort>>,
}

/// A snapshot of one `FoxService` as the control plane holds it.
#[derive(Clone, Debug, PartialEq, Eq)]
pub struct FoxService {
    pub name: String,
    pub namespace: Option<String>,
    pub spec: FoxServiceSpec,
    /// Tokens that block the physical removal of the resource.
    pub finalizers: Vec<String>,
    /// Seconds since the Unix epoch at which deletion was requested.
    pub deletion_timestamp: Option<i64>,
}

/// An [`IngressPort`] as a mathematical value.
pub struct IngressPortView {
    pub port: i32,
}

/// A [`ContainerSpec`] as a mathematical value.
pub struct ContainerSpecView {
    pub name: Seq<char>,
    pub image: Seq<char>,
    pub args: Option<Seq<Seq<char>>>,
    pub env: Option<Seq<(Seq<char>, Seq<char>)>>,
    pub ports: Option<Map<i32, i32>>,
}

/// A [`FoxServiceSpec`] as a mathematical value.
pub struct FoxServiceSpecView {
    pub replicas: i32,
    pub containers: Seq<ContainerSpecView>,
    pub http_ingress: Option<Seq<IngressPortView>>,
}

/// A [`FoxService`] as a mathematical value.
pub struct FoxServiceView {
    pub name: Seq<char>,
    pub namespace: Option<Seq<char>>,
    pub spec: FoxServiceSpecView,
    pub finalizers: Seq<Seq<char>>,
    pub deletion_timestamp: Option<i64>,
}

impl View for IngressPort {
    type V = IngressPortView;

    open spec fn view(&self) -> IngressPortView {
        IngressPortView { port: self.port }
    }
}

impl DeepView for IngressPort {
    type V = IngressPortView;

    open spec fn deep_view(&self) -> IngressPortView {
        self@
    }
}

impl View for ContainerSpec {
    type V = ContainerSpecView;

    open spec fn view(&self) -> ContainerSpecView {
        ContainerSpecView {
            name: self.name@,
            image: self.image@,
            args: self.args.deep_view(),
            env: self.env.deep_view(),
            ports: match self.ports {
                Some(m) => Some(m@),
                None => None,
            },
        }
    }
}

impl DeepView for ContainerSpec {
    type V = ContainerSpecView;

    open spec fn deep_view(&self) -> ContainerSpecView {
        self@
    }
}

impl View for FoxServiceSpec {
    type V = FoxServiceSpecView;

    open spec fn view(&self) -> FoxServiceSpecView {
        FoxServiceSpecView {
            replicas: self.replicas,
            containers: self.containers.deep_view(),
            http_ingress: self.http_ingress.deep_view(),
        }
    }
}

impl View for FoxService {
    type V = FoxServiceView;

    open spec fn view(&self) -> FoxServiceView {
        FoxServiceView {
            name: self.name@,
            namespace: self.namespace.deep_view(),
            spec: self.spec@,
            finalizers: self.finalizers.deep_view(),
            deletion_timestamp: self.deletion_timestamp,
        }
    }
}

/// No key occurs twice among `entries`.
pub open spec fn distinct_keys(entries: Seq<(Seq<char>, Seq<char>)>) -> bool {
    forall|i: int, j: int|
        0 <= i < j < entries.len() ==> (#[trigger] entries[i]).0 != (#[trigger] entries[j]).0
}

/// `entries` holds `key` at position `i`.
pub open spec fn holds_key_at(
    entries: Seq<(Seq<char>, Seq<char>)>,
    key: Seq<char>,
    i: int,
) -> bool {
    0 <= i < entries.len() && entries[i].0 == key
}

/// `i` is the first position at which `entries` holds `key`.
pub open spec fn first_holds_key_at(
    entries: Seq<(Seq<char>, Seq<char>)>,
    key: Seq<char>,
    i: int,
) -> bool {
    holds_key_at(entries, key, i) && forall|j: int| 0 <= j < i ==> !holds_key_at(entries, key, j)
}

/// `entries` with `key` set to `value`: in the first place where the key
/// stands already, or else at the end.
pub open spec fn with_entry(
    entries: Seq<(Seq<char>, Seq<char>)>,
    key: Seq<char>,
    value: Seq<char>,
) -> Seq<(Seq<char>, Seq<char>)> {
    if exists|i: int| first_holds_key_at(entries, key, i) {
        entries.update(choose|i: int| first_holds_key_at(entries, key, i), (key, value))
    } else {
        entries.push((key, value))
    }
}

impl ContainerSpecView {
    /// The environment, with none declared read as empty.
    pub open spec fn env_entries(self) -> Seq<(Seq<char>, Seq<char>)> {
        match self.env {
            Some(env) => env,
            None => Seq::empty(),
        }
    }

    /// The environment and the port mappings are mappings: no variable is
    /// declared twice, and the host ports are finitely many.
    pub open spec fn well_formed(self) -> bool {
        &&& distinct_keys(self.env_entries())
        &&& self.ports matches Some(ports) ==> ports.dom().finite()
    }
}

impl ContainerSpec {
    /// A container that runs `image` under `name`, with no arguments, no
    /// environment and no ports.
    pub fn new(name: String, image: String) -> (spec: ContainerSpec)
        ensures
            spec@ == (ContainerSpecView {
                name: name@,
                image: image@,
                args: None,
                env: None,
                ports: None,
            }),
            spec@.well_formed(),
    {
        ContainerSpec { name, image, args: None, env: None, ports: None }
    }

    /// Declares the environment variable `key` with `value`. A variable that
    /// is declared already keeps its place and gets the new value.
    pub fn set_env(&mut self, key: String, value: String)
        ensures
            final(self)@ == (ContainerSpecView {
                env: Some(with_entry(old(self)@.env_entries(), key@, value@)),
                ..old(self)@
            }),
            old(self)@.well_formed() ==> final(self)@.well_formed(),
    {
        let mut entries: Vec<(String, String)> = match self.env.take() {
            Some(entries) => entries,
            None => Vec::new(),
        };
        let ghost before = entries.deep_view();
        assert(before =~= old(self)@.env_entries());
        let mut i: usize = 0;
        while i < entries.len()
            invariant
                i <= entries.len(),
                entries.deep_view() == before,
                before == old(self)@.env_entries(),
                self.name == old(self).name,
                self.image == old(self).image,
                self.args == old(self).args,
                self.ports == old(self).ports,
                forall|j: int| 0 <= j < i ==> !holds_key_at(before, key@, j),
            decreases entries.len() - i,
        {
            if entries[i].0 == key {
                proof {
                    assert(first_holds_key_at(before, key@, i as int));
                    let first = choose|j: int| first_holds_key_at(before, key@, j);
                    assert(first == i) by {
                        if i < first {
                            assert(!holds_key_at(before, key@, i as int));
                        }
                    }
                }
                entries.set(i, (key, value));
                proof {
                    let after = entries.deep_view();
                    assert(after =~= before.update(i as int, (key@, value@)));
                    if distinct_keys(before) {
                        assert forall|a: int, b: int| 0 <= a < b < after.len() implies (
                        #[trigger] after[a]).0 != (#[trigger] after[b]).0 by {
                            assert(before[a].0 != before[b].0);
                        }
                    }
                }
                self.env = Some(entries);
                return ;
            }
            i += 1;
        }
        entries.push((key, value));
        proof {
            let after = entries.deep_view();
            assert(after =~= before.push((key@, value@)));
            if distinct_keys(before) {
                assert forall|a: int, b: int| 0 <= a < b < after.len() implies (
                #[trigger] after[a]).0 != (#[trigger] after[b]).0 by {
                    if b < before.len() {
                        assert(before[a].0 != before[b].0);
                    } else {
                        assert(!holds_key_at(before, key@, a));
                    }
                }
            }
        }
        self.env = Some(entries);
    }
}

/// A copy of `items`, string by string.
pub(crate) fn clone_strings(items: &Vec<String>) -> (out: Vec<String>)
    ensures
        out.deep_view() == items.deep_view(),
{
    let mut out: Vec<String> = Vec::new();
    let mut i: usize = 0;
    while i < items.len()
        invariant
            i <= items.len(),
            out.len() == i,
            forall|j: int| 0 <= j < i ==> out[j]@ == items[j]@,
        decreases items.len() - i,
    {
        out.push(items[i].clone());
        i += 1;
    }
    assert(out.deep_view() =~= items.deep_view());
    out
}

} // verus!
