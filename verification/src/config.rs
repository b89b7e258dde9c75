//! The declarative service catalog: typed configuration structures, assumed
//! to be loaded and validated by an external collaborator, plus the indexed
//! lookup of one service by name.

use vstd::prelude::*;

verus! {

/// Tool-wide settings read once at startup.
pub struct GlobalConfiguration {
    pub print_banner: bool,
    pub client: Option<String>,
    pub organization: Option<String>,
    pub configuration_file: String,
}

/// The service catalog: where clones live, and every deployable unit.
pub struct ProjectConfiguation {
    pub repository_path: String,
    pub application: Vec<Application>,
}

/// One deployable unit of the catalog. `slug` is the filesystem-safe name
/// used both as the clone's subdirectory and as the manifest filename stem.
pub struct Application {
    pub name: String,
    pub repository_url: String,
    pub slug: String,
    pub container: Container,
}

/// The container definition wrapped into a manifest for one service.
pub struct Container {
    pub name: String,
    pub image: String,
    pub build: Build,
    pub restart: String,
    pub user: Option<String>,
    pub stdin_open: Option<bool>,
    pub tty: Option<bool>,
    pub ports: Vec<String>,
    pub volumes: Option<Vec<String>>,
    pub environment: Option<Vec<String>>,
}

/// How the container image is built. `context` is never taken from the
/// loaded configuration: manifest synthesis always overwrites it with a value
/// computed from the repository root and the slug.
pub struct Build {
    pub context: String,
    pub args: Option<Vec<String>>,
    pub dockerfile: String,
}

/// The mathematical model of a `Container`: every field as the sequence of
/// characters (or plain value) the manifest will carry, with the build fields
/// flattened in.
pub ghost struct ContainerModel {
    pub name: Seq<char>,
    pub image: Seq<char>,
    pub context: Seq<char>,
    pub args: Option<Seq<Seq<char>>>,
    pub dockerfile: Seq<char>,
    pub restart: Seq<char>,
    pub user: Option<Seq<char>>,
    pub stdin_open: Option<bool>,
    pub tty: Option<bool>,
    pub ports: Seq<Seq<char>>,
    pub volumes: Option<Seq<Seq<char>>>,
    pub environment: Option<Seq<Seq<char>>>,
}

impl ContainerModel {
    /// The same container with its build context replaced by `context`.
    pub open spec fn with_context(self, context: Seq<char>) -> ContainerModel {
        ContainerModel { context, ..self }
    }
}

impl View for Container {
    type V = ContainerModel;

    open spec fn view(&self) -> ContainerModel {
        ContainerModel {
            name: self.name@,
            image: self.image@,
            context: self.build.context@,
            args: self.build.args.deep_view(),
            dockerfile: self.build.dockerfile@,
            restart: self.restart@,
            user: self.user.deep_view(),
            stdin_open: self.stdin_open,
            tty: self.tty,
            ports: self.ports.deep_view(),
            volumes: self.volumes.deep_view(),
            environment: self.environment.deep_view(),
        }
    }
}

/// The synthesized manifest structure: named services, in insertion order.
pub struct ComposeConfiguation {
    pub services: Vec<(String, Container)>,
}

impl ComposeConfiguation {
    /// Service keys are unique within one manifest.
    pub open spec fn wf(self) -> bool {
        forall|i: int, j: int|
            0 <= i < j < self.services@.len() ==> self.services@[i].0@ != self.services@[j].0@
    }
}

/// Index of the first catalog entry named `name`, if any: the indexed lookup
/// that replaces re-scanning a shared iterator.
pub fn find_application(config: &ProjectConfiguation, name: &String) -> (r: Option<usize>)
    ensures
        match r {
            Some(i) => {
                &&& 0 <= i < config.application@.len()
                &&& config.application@[i as int].name@ == name@
                &&& forall|j: int| 0 <= j < i ==> config.application@[j].name@ != name@
            },
            None => forall|j: int|
                0 <= j < config.application@.len() ==> config.application@[j].name@ != name@,
        },
{
    let n = config.application.len();
    let mut i: usize = 0;
    while i < n
        invariant
            n == config.application@.len(),
            0 <= i <= n,
            forall|j: int| 0 <= j < i ==> config.application@[j].name@ != name@,
        decreases n - i,
    {
        if config.application[i].name == *name {
            return Some(i);
        }
        i = i + 1;
    }
    None
}

} // verus!
