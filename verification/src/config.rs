//! The settings of the server and of its listeners, and the rules they obey.

use vstd::prelude::*;
use vstd::string::StringExecFns;

use crate::decimal::{decimal, decimal_text};
use crate::string_map::{put, Entries, StringMap};
use crate::text::{same_text, texts};

verus! {

/// Where the server listens, and the token it asks of its callers.
#[derive(Debug)]
pub struct Server {
    /// The host to listen on.
    pub host: String,
    /// The port to listen on.
    pub port: u16,
    /// The token that a caller has to present, if any.
    pub auth_token: Option<String>,
}

impl Server {
    /// The address to listen on, as text: the host, a colon, the port.
    pub open spec fn address_text(self) -> Seq<char> {
        self.host@ + ":"@ + decimal(self.port as nat)
    }

    /// The address to listen on: the host, a colon, the port.
    pub fn address(&self) -> (s: String)
        ensures
            s@ == self.address_text(),
    {
        let mut s = self.host.clone();
        s.append(":");
        s.append(decimal_text(self.port as u64).as_str());
        s
    }

    /// The host that a server listens on where none is set.
    pub fn default_host() -> (host: String)
        ensures
            host@ == "0.0.0.0"@,
    {
        "0.0.0.0".to_owned()
    }

    /// The port that a server listens on where none is set.
    pub fn default_port() -> (port: u16)
        ensures
            port == 4463,
    {
        4463
    }
}

/// A service of a compose file: its name, and its image where it names one.
#[derive(Debug)]
pub struct Service {
    pub name: String,
    pub image: Option<String>,
}

/// The model of a `Service`.
pub struct ServiceModel {
    pub name: Seq<char>,
    pub image: Option<Seq<char>>,
}

impl View for Service {
    type V = ServiceModel;

    open spec fn view(&self) -> ServiceModel {
        ServiceModel {
            name: self.name@,
            image: match self.image {
                Some(image) => Some(image@),
                None => None,
            },
        }
    }
}

/// The models of the services.
pub open spec fn service_models(services: Seq<Service>) -> Seq<ServiceModel> {
    Seq::new(services.len(), |i: int| services[i]@)
}

/// What is wrong with a configuration.
#[derive(Debug)]
pub enum ConfigError {
    /// The port of the server is below 1024.
    Port(u16),
    /// The listener of this name watches no service.
    NoServices(String),
    /// A watched service has no image in the compose file at `compose`.
    NoImage { service: String, compose: String },
    /// A watched service is not in the compose file at `compose`.
    NotFound { service: String, compose: String },
}

/// The model of a `ConfigError`.
pub enum ConfigFault {
    Port(u16),
    NoServices(Seq<char>),
    NoImage { service: Seq<char>, compose: Seq<char> },
    NotFound { service: Seq<char>, compose: Seq<char> },
}

impl View for ConfigError {
    type V = ConfigFault;

    open spec fn view(&self) -> ConfigFault {
        match self {
            ConfigError::Port(port) => ConfigFault::Port(*port),
            ConfigError::NoServices(listener) => ConfigFault::NoServices(listener@),
            ConfigError::NoImage { service, compose } => ConfigFault::NoImage {
                service: service@,
                compose: compose@,
            },
            ConfigError::NotFound { service, compose } => ConfigFault::NotFound {
                service: service@,
                compose: compose@,
            },
        }
    }
}

impl ConfigError {
    /// What the error says, as text.
    pub open spec fn message(self) -> Seq<char> {
        match self {
            ConfigError::Port(port) => "invalid configuration: invalid server port "@ + decimal(
                port as nat,
            ) + ": cannot be less than 1024"@,
            ConfigError::NoServices(listener) => "invalid configuration: listener '"@ + listener@
                + "' should have at least one watch_services defined"@,
            ConfigError::NoImage { service, compose } => "invalid configuration: service '"@
                + service@ + "' has no 'image' attribute in compose file '"@ + compose@ + "'"@,
            ConfigError::NotFound { service, compose } => "invalid configuration: service '"@
                + service@ + "' not found in compose file '"@ + compose@ + "'"@,
        }
    }

    /// What the error says, as text.
    pub fn to_string(&self) -> (s: String)
        ensures
            s@ == self.message(),
    {
        match self {
            ConfigError::Port(port) => {
                let mut s = "invalid configuration: invalid server port ".to_owned();
                s.append(decimal_text(*port as u64).as_str());
                s.append(": cannot be less than 1024");
                s
            },
            ConfigError::NoServices(listener) => {
                let mut s = "invalid configuration: listener '".to_owned();
                s.append(listener.as_str());
                s.append("' should have at least one watch_services defined");
                s
            },
            ConfigError::NoImage { service, compose } => {
                let mut s = "invalid configuration: service '".to_owned();
                s.append(service.as_str());
                s.append("' has no 'image' attribute in compose file '");
                s.append(compose.as_str());
                s.append("'");
                s
            },
            ConfigError::NotFound { service, compose } => {
                let mut s = "invalid configuration: service '".to_owned();
                s.append(service.as_str());
                s.append("' not found in compose file '");
                s.append(compose.as_str());
                s.append("'");
                s
            },
        }
    }
}

/// The first position at or after `from` of a service with the name `name`.
pub open spec fn service_from(services: Seq<ServiceModel>, name: Seq<char>, from: int) -> Option<
    int,
>
    decreases services.len() - from + 1,
{
    if from < 0 || from >= services.len() {
        None
    } else if services[from].name == name {
        Some(from)
    } else {
        service_from(services, name, from + 1)
    }
}

/// What watching the service `name` adds to the images that are listened
/// for: the image of the service now stands for `name`. A service that the
/// compose file does not have, or that has no image, is a fault.
pub open spec fn watched(
    images: Entries,
    services: Seq<ServiceModel>,
    compose: Seq<char>,
    name: Seq<char>,
) -> Result<Entries, ConfigFault> {
    match service_from(services, name, 0) {
        None => Err(ConfigFault::NotFound { service: name, compose: compose }),
        Some(i) => match services[i].image {
            None => Err(ConfigFault::NoImage { service: name, compose: compose }),
            Some(image) => Ok(put(images, image, name)),
        },
    }
}

/// What watching the first `n` of `watch` gives: the images that are
/// listened for, or the fault of the first service that cannot be watched.
pub open spec fn watched_all(
    services: Seq<ServiceModel>,
    compose: Seq<char>,
    watch: Seq<Seq<char>>,
    n: int,
) -> Result<Entries, ConfigFault>
    decreases n,
{
    if n <= 0 {
        Ok(Seq::empty())
    } else {
        match watched_all(services, compose, watch, n - 1) {
            Err(fault) => Err(fault),
            Ok(images) => watched(images, services, compose, watch[n - 1]),
        }
    }
}

/// The images that a listener listens for, each with the service that runs
/// it. A listener has to watch at least one service, and each of them has to
/// be in the compose file with an image.
pub open spec fn listened(
    listener: Seq<char>,
    compose: Seq<char>,
    services: Seq<ServiceModel>,
    watch: Seq<Seq<char>>,
) -> Result<Entries, ConfigFault> {
    if watch.len() == 0 {
        Err(ConfigFault::NoServices(listener))
    } else {
        watched_all(services, compose, watch, watch.len() as int)
    }
}

/// The fault of a service that cannot be watched is the fault of all that
/// are watched after it.
pub proof fn lemma_fault_stays(
    services: Seq<ServiceModel>,
    compose: Seq<char>,
    watch: Seq<Seq<char>>,
    k: int,
    n: int,
)
    requires
        0 <= k <= n,
        watched_all(services, compose, watch, k) is Err,
    ensures
        watched_all(services, compose, watch, n) == watched_all(services, compose, watch, k),
    decreases n - k,
{
    if k < n {
        lemma_fault_stays(services, compose, watch, k, n - 1);
    }
}

/// Whether a server may listen on `port`: the ports below 1024 are not allowed.
pub fn check_port(port: u16) -> (r: Result<(), ConfigError>)
    ensures
        match r {
            Ok(_) => port >= 1024,
            Err(e) => port < 1024 && e@ == ConfigFault::Port(port),
        },
{
    if port < 1024 {
        Err(ConfigError::Port(port))
    } else {
        Ok(())
    }
}

fn find_service(services: &Vec<Service>, name: &str) -> (r: Option<usize>)
    ensures
        match r {
            Some(i) => service_from(service_models(services@), name@, 0) == Some(i as int) && i
                < services@.len(),
            None => service_from(service_models(services@), name@, 0) is None,
        },
{
    let mut i: usize = 0;
    while i < services.len()
        invariant
            i <= services@.len(),
            service_from(service_models(services@), name@, 0) == service_from(
                service_models(services@),
                name@,
                i as int,
            ),
        decreases services@.len() - i,
    {
        assert(service_models(services@)[i as int] == services@[i as int]@);
        if same_text(services[i].name.as_str(), name) {
            return Some(i);
        }
        i = i + 1;
    }
    None
}

/// The images that the listener `listener` listens for, from the services of
/// the compose file at `compose` and the names of the services to watch.
pub fn check_listener(
    listener: &str,
    compose: &str,
    services: &Vec<Service>,
    watch: &Vec<String>,
) -> (r: Result<StringMap, ConfigError>)
    ensures
        match r {
            Ok(images) => listened(listener@, compose@, service_models(services@), texts(watch@))
                == Ok::<Entries, ConfigFault>(images.entries()),
            Err(e) => listened(listener@, compose@, service_models(services@), texts(watch@))
                == Err::<Entries, ConfigFault>(e@),
        },
{
    if watch.len() == 0 {
        return Err(ConfigError::NoServices(listener.to_owned()));
    }
    let ghost models = service_models(services@);
    let mut images = StringMap::new();
    let mut i: usize = 0;
    while i < watch.len()
        invariant
            i <= watch@.len(),
            watch@.len() > 0,
            models == service_models(services@),
            watched_all(models, compose@, texts(watch@), i as int) == Ok::<Entries, ConfigFault>(
                images.entries(),
            ),
        decreases watch@.len() - i,
    {
        let name = watch[i].as_str();
        assert(texts(watch@)[i as int] == name@);
        match find_service(services, name) {
            None => {
                proof {
                    lemma_fault_stays(
                        models,
                        compose@,
                        texts(watch@),
                        i + 1,
                        watch@.len() as int,
                    );
                }
                return Err(
                    ConfigError::NotFound { service: name.to_owned(), compose: compose.to_owned() },
                );
            },
            Some(k) => {
                assert(models[k as int] == services@[k as int]@);
                match &services[k].image {
                    None => {
                        proof {
                            lemma_fault_stays(
                                models,
                                compose@,
                                texts(watch@),
                                i + 1,
                                watch@.len() as int,
                            );
                        }
                        return Err(
                            ConfigError::NoImage {
                                service: name.to_owned(),
                                compose: compose.to_owned(),
                            },
                        );
                    },
                    Some(image) => {
                        images.insert(image.clone(), name.to_owned());
                    },
                }
            },
        }
        i = i + 1;
    }
    Ok(images)
}

} // verus!
