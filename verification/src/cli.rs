//! The two modes of the program and what each is started with.

use crate::service::ServiceOptions;
use vstd::prelude::*;
use vstd::string::*;

verus! {

/// The address on which the controller serves its diagnostics when none is
/// given.
pub const DEFAULT_LISTEN_ADDRESS: &'static str = "0.0.0.0:8080";

/// The mode to run in, with its arguments.
#[derive(Clone, Debug)]
pub enum SubCommand {
    /// Run the reconciler and serve diagnostics on `listen_address`.
    Controller { listen_address: String, image: String },
    /// Run one forwarding session.
    Service {
        namespace: String,
        name: String,
        ports: Vec<u16>,
        max_retries: i32,
        kube_context: String,
        kube_user: Option<String>,
        kube_cluster: Option<String>,
    },
}

/// The arguments of the program.
#[derive(Clone, Debug)]
pub struct Arguments {
    pub cmd: SubCommand,
}

/// Which context, cluster and user to select from a kubeconfig.
#[derive(Clone, Debug)]
pub struct KubeConfigOptions {
    pub context: Option<String>,
    pub cluster: Option<String>,
    pub user: Option<String>,
}

/// What the program is to start.
#[derive(Clone, Debug)]
pub enum Launch {
    /// The controller, running forwarders from `image` and serving
    /// diagnostics on `listen_address`.
    Controller { image: String, listen_address: String },
    /// A forwarding session with these options, against the cluster that
    /// `kube_config` selects.
    Service { options: ServiceOptions, kube_config: KubeConfigOptions },
}

impl Arguments {
    /// What the program is to start for these arguments. A session is run
    /// with the number of retries given, in the context given, and with
    /// the user and cluster where they are given.
    pub fn launch(self) -> (launch: Launch)
        ensures
            match self.cmd {
                SubCommand::Controller { listen_address, image } => launch == (Launch::Controller {
                    image,
                    listen_address,
                }),
                SubCommand::Service {
                    namespace,
                    name,
                    ports,
                    max_retries,
                    kube_context,
                    kube_user,
                    kube_cluster,
                } => launch == (Launch::Service {
                    options: ServiceOptions { namespace, name, ports, max_retries: Some(max_retries) },
                    kube_config: KubeConfigOptions {
                        context: Some(kube_context),
                        cluster: kube_cluster,
                        user: kube_user,
                    },
                }),
            },
    {
        match self.cmd {
            SubCommand::Controller { listen_address, image } => Launch::Controller {
                image,
                listen_address,
            },
            SubCommand::Service {
                namespace,
                name,
                ports,
                max_retries,
                kube_context,
                kube_user,
                kube_cluster,
            } => Launch::Service {
                options: ServiceOptions::new(namespace, name, ports, Some(max_retries)),
                kube_config: KubeConfigOptions {
                    context: Some(kube_context),
                    cluster: kube_cluster,
                    user: kube_user,
                },
            },
        }
    }
}

} // verus!
