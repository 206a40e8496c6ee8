//! The management API facade: one client per API surface (identities,
//! modules, system information), all sharing one configuration.  The
//! REST exchanges themselves are the HTTP layer's business, outside
//! this crate's scope; what is kept here is the facade's shape and the
//! distribution of the shared configuration.

use vstd::prelude::*;

verus! {

/// The shared client configuration: the connector the HTTP client
/// runs on and the base path requests are made under.
#[derive(Debug)]
pub struct Configuration<C> {
    pub client: C,
    pub base_path: String,
}

impl<C> Configuration<C> {
    pub fn new(client: C, base_path: String) -> (r: Configuration<C>)
        ensures
            r.client == client,
            r.base_path == base_path,
    {
        Configuration { client, base_path }
    }
}

impl<C: Clone> Clone for Configuration<C> {
    fn clone(&self) -> (r: Self)
        ensures
            r.base_path@ == self.base_path@,
            cloned::<C>(self.client, r.client),
    {
        Configuration { client: self.client.clone(), base_path: self.base_path.clone() }
    }
}

/// The client for the identity API.
#[derive(Debug)]
pub struct IdentityApiClient<C> {
    configuration: Configuration<C>,
}

impl<C> IdentityApiClient<C> {
    pub closed spec fn config_spec(&self) -> Configuration<C> {
        self.configuration
    }

    pub fn new(configuration: Configuration<C>) -> (r: IdentityApiClient<C>)
        ensures
            r.config_spec() == configuration,
    {
        IdentityApiClient { configuration }
    }

    /// The shared configuration this client serves under.
    pub fn configuration(&self) -> (r: &Configuration<C>)
        ensures
            *r == self.config_spec(),
    {
        &self.configuration
    }
}

/// The client for the module API.
#[derive(Debug)]
pub struct ModuleApiClient<C> {
    configuration: Configuration<C>,
}

impl<C> ModuleApiClient<C> {
    pub closed spec fn config_spec(&self) -> Configuration<C> {
        self.configuration
    }

    pub fn new(configuration: Configuration<C>) -> (r: ModuleApiClient<C>)
        ensures
            r.config_spec() == configuration,
    {
        ModuleApiClient { configuration }
    }

    /// The shared configuration this client serves under.
    pub fn configuration(&self) -> (r: &Configuration<C>)
        ensures
            *r == self.config_spec(),
    {
        &self.configuration
    }
}

/// The client for the system information API.
#[derive(Debug)]
pub struct SystemInformationApiClient<C> {
    configuration: Configuration<C>,
}

impl<C> SystemInformationApiClient<C> {
    pub closed spec fn config_spec(&self) -> Configuration<C> {
        self.configuration
    }

    pub fn new(configuration: Configuration<C>) -> (r: SystemInformationApiClient<C>)
        ensures
            r.config_spec() == configuration,
    {
        SystemInformationApiClient { configuration }
    }

    /// The shared configuration this client serves under.
    pub fn configuration(&self) -> (r: &Configuration<C>)
        ensures
            *r == self.config_spec(),
    {
        &self.configuration
    }
}

/// The facade over the three API clients.
#[derive(Debug)]
pub struct APIClient<C> {
    identity_api: IdentityApiClient<C>,
    module_api: ModuleApiClient<C>,
    system_information_api: SystemInformationApiClient<C>,
}

impl<C> APIClient<C> {
    pub closed spec fn identity_spec(&self) -> IdentityApiClient<C> {
        self.identity_api
    }

    pub closed spec fn module_spec(&self) -> ModuleApiClient<C> {
        self.module_api
    }

    pub closed spec fn system_information_spec(&self) -> SystemInformationApiClient<C> {
        self.system_information_api
    }

    /// Builds the facade: each API client is handed the one shared
    /// configuration, so all three serve the same base path.
    pub fn new(configuration: Configuration<C>) -> (r: APIClient<C>) where C: Clone
        ensures
            r.identity_spec().config_spec().base_path@ == configuration.base_path@,
            r.module_spec().config_spec().base_path@ == configuration.base_path@,
            r.system_information_spec().config_spec().base_path@ == configuration.base_path@,
    {
        let for_identity = configuration.clone();
        let for_module = configuration.clone();
        APIClient {
            identity_api: IdentityApiClient::new(for_identity),
            module_api: ModuleApiClient::new(for_module),
            system_information_api: SystemInformationApiClient::new(configuration),
        }
    }

    pub fn identity_api(&self) -> (r: &IdentityApiClient<C>)
        ensures
            *r == self.identity_spec(),
    {
        &self.identity_api
    }

    pub fn module_api(&self) -> (r: &ModuleApiClient<C>)
        ensures
            *r == self.module_spec(),
    {
        &self.module_api
    }

    pub fn system_information_api(&self) -> (r: &SystemInformationApiClient<C>)
        ensures
            *r == self.system_information_spec(),
    {
        &self.system_information_api
    }
}

} // verus!
