//! The orchestration descriptor: services and what is declared of each.
//!
//! Several declarations come in two shapes: the environment as a list of
//! `KEY=VALUE` entries or as a mapping, the dependencies as a list of names or
//! as a mapping to conditions, the build as a context path or as a record.
//! Each is one type with a variant per shape.

use crate::text::str_eq;
use vstd::prelude::*;

verus! {

/// A descriptor.
#[derive(Debug, Clone)]
pub struct ComposeFile {
    pub version: Option<String>,
    /// The services by name. No name occurs twice.
    pub services: Option<Vec<(String, Service)>>,
    /// The names of the volumes that the descriptor declares.
    pub volumes: Option<Vec<String>>,
    /// The names of the networks that the descriptor declares.
    pub networks: Option<Vec<String>>,
}

/// One service of a descriptor.
#[derive(Debug, Clone, Default)]
pub struct Service {
    pub image: Option<String>,
    pub build: Option<BuildConfig>,
    pub environment: Option<Environment>,
    pub env_file: Option<EnvFile>,
    pub ports: Option<Vec<String>>,
    pub volumes: Option<Vec<String>>,
    pub depends_on: Option<DependsOn>,
    pub restart: Option<String>,
    pub privileged: Option<bool>,
    pub user: Option<String>,
    /// The command, as the descriptor writes it.
    pub command: Option<String>,
    /// The entry point, as the descriptor writes it.
    pub entrypoint: Option<String>,
    pub healthcheck: Option<HealthCheck>,
    pub deploy: Option<Deploy>,
    pub mem_limit: Option<String>,
    /// The limit on processors, as a decimal number.
    pub cpus: Option<String>,
    pub cap_add: Option<Vec<String>>,
    pub cap_drop: Option<Vec<String>>,
    pub security_opt: Option<Vec<String>>,
    /// The networks of the service, as the descriptor writes them.
    pub networks: Option<String>,
    /// The labels of the service, as the descriptor writes them.
    pub labels: Option<String>,
}

/// How a service is built: from a context path, or as a record says.
#[derive(Debug, Clone)]
pub enum BuildConfig {
    Simple(String),
    Extended {
        context: Option<String>,
        dockerfile: Option<String>,
        args: Option<Vec<(String, String)>>,
        target: Option<String>,
    },
}

/// The environment of a service: a list of `KEY=VALUE` entries, or a mapping
/// from keys to values, in which a key may have no value.
#[derive(Debug, Clone)]
pub enum Environment {
    List(Vec<String>),
    Mapping(Vec<(String, Option<String>)>),
}

/// The environment files of a service: one path, or several.
#[derive(Debug, Clone)]
pub enum EnvFile {
    Single(String),
    Multiple(Vec<String>),
}

/// What a service depends on: a list of names, or a mapping from names to
/// conditions.
#[derive(Debug, Clone)]
pub enum DependsOn {
    Simple(Vec<String>),
    Extended(Vec<(String, DependsOnCondition)>),
}

/// The condition under which a dependency counts as met.
#[derive(Debug, Clone)]
pub struct DependsOnCondition {
    pub condition: Option<String>,
}

/// The health check of a service.
#[derive(Debug, Clone)]
pub struct HealthCheck {
    /// The test, as the descriptor writes it.
    pub test: Option<String>,
    pub interval: Option<String>,
    pub timeout: Option<String>,
    pub retries: Option<i32>,
    pub start_period: Option<String>,
}

/// How a service is deployed.
#[derive(Debug, Clone)]
pub struct Deploy {
    pub replicas: Option<i32>,
    pub resources: Option<Resources>,
    pub restart_policy: Option<RestartPolicy>,
}

/// The resources of a deployment.
#[derive(Debug, Clone)]
pub struct Resources {
    pub limits: Option<ResourceSpec>,
    pub reservations: Option<ResourceSpec>,
}

/// An amount of processors and memory.
#[derive(Debug, Clone)]
pub struct ResourceSpec {
    pub cpus: Option<String>,
    pub memory: Option<String>,
}

/// When a deployment restarts its service.
#[derive(Debug, Clone)]
pub struct RestartPolicy {
    pub condition: Option<String>,
    pub delay: Option<String>,
    pub max_attempts: Option<i32>,
    pub window: Option<String>,
}

/// The mathematical value of a [`ComposeFile`].
pub struct ComposeFileView {
    pub version: Option<Seq<char>>,
    pub services: Option<Seq<(Seq<char>, ServiceView)>>,
    pub volumes: Option<Seq<Seq<char>>>,
    pub networks: Option<Seq<Seq<char>>>,
}

/// The mathematical value of a [`Service`].
pub struct ServiceView {
    pub image: Option<Seq<char>>,
    pub build: Option<BuildConfigView>,
    pub environment: Option<EnvironmentView>,
    pub env_file: Option<EnvFileView>,
    pub ports: Option<Seq<Seq<char>>>,
    pub volumes: Option<Seq<Seq<char>>>,
    pub depends_on: Option<DependsOnView>,
    pub restart: Option<Seq<char>>,
    pub privileged: Option<bool>,
    pub user: Option<Seq<char>>,
    pub command: Option<Seq<char>>,
    pub entrypoint: Option<Seq<char>>,
    pub healthcheck: Option<HealthCheckView>,
    pub deploy: Option<DeployView>,
    pub mem_limit: Option<Seq<char>>,
    pub cpus: Option<Seq<char>>,
    pub cap_add: Option<Seq<Seq<char>>>,
    pub cap_drop: Option<Seq<Seq<char>>>,
    pub security_opt: Option<Seq<Seq<char>>>,
    pub networks: Option<Seq<char>>,
    pub labels: Option<Seq<char>>,
}

/// The mathematical value of a [`BuildConfig`].
pub enum BuildConfigView {
    Simple(Seq<char>),
    Extended {
        context: Option<Seq<char>>,
        dockerfile: Option<Seq<char>>,
        args: Option<Seq<(Seq<char>, Seq<char>)>>,
        target: Option<Seq<char>>,
    },
}

/// The mathematical value of an [`Environment`].
pub enum EnvironmentView {
    List(Seq<Seq<char>>),
    Mapping(Seq<(Seq<char>, Option<Seq<char>>)>),
}

/// The mathematical value of an [`EnvFile`].
pub enum EnvFileView {
    Single(Seq<char>),
    Multiple(Seq<Seq<char>>),
}

/// The mathematical value of a [`DependsOn`].
pub enum DependsOnView {
    Simple(Seq<Seq<char>>),
    Extended(Seq<(Seq<char>, DependsOnConditionView)>),
}

/// The mathematical value of a [`DependsOnCondition`].
pub struct DependsOnConditionView {
    pub condition: Option<Seq<char>>,
}

/// The mathematical value of a [`HealthCheck`].
pub struct HealthCheckView {
    pub test: Option<Seq<char>>,
    pub interval: Option<Seq<char>>,
    pub timeout: Option<Seq<char>>,
    pub retries: Option<i32>,
    pub start_period: Option<Seq<char>>,
}

/// The mathematical value of a [`Deploy`].
pub struct DeployView {
    pub replicas: Option<i32>,
    pub resources: Option<ResourcesView>,
    pub restart_policy: Option<RestartPolicyView>,
}

/// The mathematical value of a [`Resources`].
pub struct ResourcesView {
    pub limits: Option<ResourceSpecView>,
    pub reservations: Option<ResourceSpecView>,
}

/// The mathematical value of a [`ResourceSpec`].
pub struct ResourceSpecView {
    pub cpus: Option<Seq<char>>,
    pub memory: Option<Seq<char>>,
}

/// The mathematical value of a [`RestartPolicy`].
pub struct RestartPolicyView {
    pub condition: Option<Seq<char>>,
    pub delay: Option<Seq<char>>,
    pub max_attempts: Option<i32>,
    pub window: Option<Seq<char>>,
}

impl DeepView for RestartPolicy {
    type V = RestartPolicyView;

    open spec fn deep_view(&self) -> RestartPolicyView {
        RestartPolicyView {
            condition: self.condition.deep_view(),
            delay: self.delay.deep_view(),
            max_attempts: self.max_attempts,
            window: self.window.deep_view(),
        }
    }
}

impl DeepView for ResourceSpec {
    type V = ResourceSpecView;

    open spec fn deep_view(&self) -> ResourceSpecView {
        ResourceSpecView { cpus: self.cpus.deep_view(), memory: self.memory.deep_view() }
    }
}

impl DeepView for Resources {
    type V = ResourcesView;

    open spec fn deep_view(&self) -> ResourcesView {
        ResourcesView {
            limits: self.limits.deep_view(),
            reservations: self.reservations.deep_view(),
        }
    }
}

impl DeepView for Deploy {
    type V = DeployView;

    open spec fn deep_view(&self) -> DeployView {
        DeployView {
            replicas: self.replicas,
            resources: self.resources.deep_view(),
            restart_policy: self.restart_policy.deep_view(),
        }
    }
}

impl DeepView for HealthCheck {
    type V = HealthCheckView;

    open spec fn deep_view(&self) -> HealthCheckView {
        HealthCheckView {
            test: self.test.deep_view(),
            interval: self.interval.deep_view(),
            timeout: self.timeout.deep_view(),
            retries: self.retries,
            start_period: self.start_period.deep_view(),
        }
    }
}

impl DeepView for DependsOnCondition {
    type V = DependsOnConditionView;

    open spec fn deep_view(&self) -> DependsOnConditionView {
        DependsOnConditionView { condition: self.condition.deep_view() }
    }
}

impl DeepView for DependsOn {
    type V = DependsOnView;

    open spec fn deep_view(&self) -> DependsOnView {
        match self {
            DependsOn::Simple(names) => DependsOnView::Simple(names.deep_view()),
            DependsOn::Extended(entries) => DependsOnView::Extended(entries.deep_view()),
        }
    }
}

impl DeepView for EnvFile {
    type V = EnvFileView;

    open spec fn deep_view(&self) -> EnvFileView {
        match self {
            EnvFile::Single(path) => EnvFileView::Single(path.deep_view()),
            EnvFile::Multiple(paths) => EnvFileView::Multiple(paths.deep_view()),
        }
    }
}

impl DeepView for Environment {
    type V = EnvironmentView;

    open spec fn deep_view(&self) -> EnvironmentView {
        match self {
            Environment::List(items) => EnvironmentView::List(items.deep_view()),
            Environment::Mapping(entries) => EnvironmentView::Mapping(entries.deep_view()),
        }
    }
}

impl DeepView for BuildConfig {
    type V = BuildConfigView;

    open spec fn deep_view(&self) -> BuildConfigView {
        match self {
            BuildConfig::Simple(context) => BuildConfigView::Simple(context.deep_view()),
            BuildConfig::Extended { context, dockerfile, args, target } => {
                BuildConfigView::Extended {
                    context: context.deep_view(),
                    dockerfile: dockerfile.deep_view(),
                    args: args.deep_view(),
                    target: target.deep_view(),
                }
            },
        }
    }
}

impl DeepView for Service {
    type V = ServiceView;

    open spec fn deep_view(&self) -> ServiceView {
        ServiceView {
            image: self.image.deep_view(),
            build: self.build.deep_view(),
            environment: self.environment.deep_view(),
            env_file: self.env_file.deep_view(),
            ports: self.ports.deep_view(),
            volumes: self.volumes.deep_view(),
            depends_on: self.depends_on.deep_view(),
            restart: self.restart.deep_view(),
            privileged: self.privileged,
            user: self.user.deep_view(),
            command: self.command.deep_view(),
            entrypoint: self.entrypoint.deep_view(),
            healthcheck: self.healthcheck.deep_view(),
            deploy: self.deploy.deep_view(),
            mem_limit: self.mem_limit.deep_view(),
            cpus: self.cpus.deep_view(),
            cap_add: self.cap_add.deep_view(),
            cap_drop: self.cap_drop.deep_view(),
            security_opt: self.security_opt.deep_view(),
            networks: self.networks.deep_view(),
            labels: self.labels.deep_view(),
        }
    }
}

impl DeepView for ComposeFile {
    type V = ComposeFileView;

    open spec fn deep_view(&self) -> ComposeFileView {
        ComposeFileView {
            version: self.version.deep_view(),
            services: self.services.deep_view(),
            volumes: self.volumes.deep_view(),
            networks: self.networks.deep_view(),
        }
    }
}

impl ComposeFileView {
    /// The services, in the order of the descriptor; none where the descriptor
    /// declares none.
    pub open spec fn service_list(self) -> Seq<(Seq<char>, ServiceView)> {
        match self.services {
            Some(list) => list,
            None => Seq::empty(),
        }
    }

    /// Whether no service name occurs twice.
    pub open spec fn well_formed(self) -> bool {
        forall|i: int, j: int|
            0 <= i < j < self.service_list().len() ==> (#[trigger] self.service_list()[i]).0 != (
            #[trigger] self.service_list()[j]).0
    }
}

/// The index of the first of `services[k..]` that has the name `name`.
pub open spec fn find_service(
    services: Seq<(Seq<char>, ServiceView)>,
    name: Seq<char>,
    k: int,
) -> Option<int>
    decreases services.len() - k,
{
    if k < 0 || k >= services.len() {
        None
    } else if services[k].0 == name {
        Some(k)
    } else {
        find_service(services, name, k + 1)
    }
}

impl ComposeFileView {
    /// The service with the name `name`, if there is one.
    pub open spec fn service(self, name: Seq<char>) -> Option<ServiceView> {
        match find_service(self.service_list(), name, 0) {
            Some(i) => Some(self.service_list()[i].1),
            None => None,
        }
    }
}

/// The first service with a name is found at or after the index where the
/// search begins, and no service before it has the name.
pub proof fn lemma_find_service(services: Seq<(Seq<char>, ServiceView)>, name: Seq<char>, k: int)
    requires
        0 <= k,
    ensures
        match find_service(services, name, k) {
            Some(i) => k <= i < services.len() && services[i].0 == name && forall|j: int|
                k <= j < i ==> (#[trigger] services[j]).0 != name,
            None => forall|j: int| k <= j < services.len() ==> (#[trigger] services[j]).0 != name,
        },
    decreases services.len() - k,
{
    if k < services.len() && services[k].0 != name {
        lemma_find_service(services, name, k + 1);
    }
}

/// In a descriptor in which no service name occurs twice, a service is found
/// by its name: every service is the one that its name gives.
pub proof fn lemma_service_by_name(compose: ComposeFileView, i: int)
    requires
        compose.well_formed(),
        0 <= i < compose.service_list().len(),
    ensures
        compose.service(compose.service_list()[i].0) == Some(compose.service_list()[i].1),
{
    let services = compose.service_list();
    lemma_find_service(services, services[i].0, 0);
    let found = find_service(services, services[i].0, 0);
    if found is Some && found->Some_0 != i {
        let j = found->Some_0;
        assert(services[j].0 == services[i].0);
        if j < i {
            assert(services[j].0 != services[i].0);
        } else {
            assert(services[i].0 != services[j].0);
        }
    }
}

impl ComposeFile {
    /// The service with the name `name`, if there is one; the first, should the
    /// name occur twice.
    pub fn service(&self, name: &str) -> (found: Option<&Service>)
        ensures
            found.deep_view() == self.deep_view().service(name@),
    {
        match &self.services {
            Some(list) => {
                let ghost services = list.deep_view();
                let mut k: usize = 0;
                while k < list.len()
                    invariant
                        k <= list.len(),
                        services == list.deep_view(),
                        services == self.deep_view().service_list(),
                        find_service(services, name@, 0) == find_service(services, name@, k as int),
                    decreases list.len() - k,
                {
                    assert(services[k as int] == list@[k as int].deep_view());
                    if str_eq(list[k].0.as_str(), name) {
                        return Some(&list[k].1);
                    }
                    k += 1;
                }
                None
            },
            None => None,
        }
    }

    /// Whether no service name occurs twice.
    pub fn has_unique_names(&self) -> (ok: bool)
        ensures
            ok == self.deep_view().well_formed(),
    {
        match &self.services {
            Some(list) => {
                let ghost services = list.deep_view();
                let mut j: usize = 0;
                while j < list.len()
                    invariant
                        j <= list.len(),
                        services == list.deep_view(),
                        services == self.deep_view().service_list(),
                        forall|a: int, b: int|
                            0 <= a < b < j ==> (#[trigger] services[a]).0 != (
                            #[trigger] services[b]).0,
                    decreases list.len() - j,
                {
                    let mut i: usize = 0;
                    while i < j
                        invariant
                            i <= j < list.len(),
                            services == list.deep_view(),
                            services == self.deep_view().service_list(),
                            forall|a: int|
                                0 <= a < i ==> (#[trigger] services[a]).0 != services[j as int].0,
                        decreases j - i,
                    {
                        assert(services[i as int] == list@[i as int].deep_view());
                        assert(services[j as int] == list@[j as int].deep_view());
                        if str_eq(list[i].0.as_str(), list[j].0.as_str()) {
                            assert(services[i as int].0 == services[j as int].0);
                            return false;
                        }
                        i += 1;
                    }
                    j += 1;
                }
                true
            },
            None => true,
        }
    }
}

} // verus!
