//! Bootstrap context for a backend connection.  The connection itself and
//! the settings fetch are the transport's work; the decisions about what the
//! assembled context holds are made here.

use vstd::prelude::*;

verus! {

/// A handle on the backend message bus, reduced to what the gateway reads
/// of it: the domain it is attached to.
pub struct Client {
    pub domain: String,
}

impl Client {
    pub fn new(domain: String) -> (r: Client)
        ensures
            r.domain == domain,
    {
        Client { domain }
    }
}

/// Host-level settings fetched at startup, as key/value pairs.
pub struct HostSettings {
    pub entries: Vec<(String, String)>,
}

/// The assembled bootstrap context.
pub struct Context {
    pub client: Client,
    pub host_settings: Option<HostSettings>,
}

impl Context {
    pub fn client(&self) -> (r: &Client)
        ensures
            r == self.client,
    {
        &self.client
    }

    pub fn host_settings(&self) -> (r: Option<&HostSettings>)
        ensures
            match r {
                Some(h) => self.host_settings == Some(*h),
                None => self.host_settings is None,
            },
    {
        self.host_settings.as_ref()
    }
}

/// Choices made at startup.
pub struct InitOptions {
    pub skip_logging: bool,
    pub skip_host_settings: bool,
    /// Application name to report to the system log.
    pub appname: Option<String>,
}

impl InitOptions {
    pub fn new() -> (r: InitOptions)
        ensures
            r.skip_logging == false,
            r.skip_host_settings == false,
            r.appname is None,
    {
        InitOptions { skip_logging: false, skip_host_settings: false, appname: None }
    }
}

/// Assemble a context with default options.
pub fn init(client: Client, host_settings: Option<HostSettings>) -> (r: Result<Context, String>)
    ensures
        r matches Ok(c) && c.client == client && c.host_settings == host_settings,
{
    with_options(&InitOptions::new(), client, host_settings)
}

/// Assemble a context: the connected client is kept, and the fetched host
/// settings are kept only when the options do not skip them.
pub fn with_options(
    options: &InitOptions,
    client: Client,
    host_settings: Option<HostSettings>,
) -> (r: Result<Context, String>)
    ensures
        r matches Ok(c) && c.client == client && c.host_settings == (if options.skip_host_settings {
            None::<HostSettings>
        } else {
            host_settings
        }),
{
    let hs = if options.skip_host_settings {
        None
    } else {
        host_settings
    };
    Ok(Context { client, host_settings: hs })
}

/// Assemble a context from pre-compiled components.  Useful for spawned
/// workers, which reuse fetched settings and only connect anew.
pub fn init_from_parts(host_settings: Option<HostSettings>, client: Client) -> (r: Result<
    Context,
    String,
>)
    ensures
        r matches Ok(c) && c.client == client && c.host_settings == host_settings,
{
    Ok(Context { client, host_settings })
}

} // verus!
