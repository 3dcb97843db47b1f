use vstd::prelude::*;

verus! {

/// Why the worker's port cannot be given.
#[derive(Clone, Copy, Debug, PartialEq, Eq, Structural)]
pub enum PortError {
    /// No port line has been read from the worker yet.
    NotAvailable,
}

impl PortError {
    /// The text that the boundary command returns for this error.
    pub fn message(&self) -> (r: String)
        ensures
            r@ == "Sidecar port not yet available"@,
    {
        String::from_str("Sidecar port not yet available")
    }
}

/// The answer to a port query when the registry holds `port`.
pub open spec fn answer(port: Option<u16>) -> Result<u16, PortError> {
    match port {
        Some(p) => Ok(p),
        None => Err(PortError::NotAvailable),
    }
}

/// The worker's port, once known. It is written at most once: after the
/// first `set`, later ones leave it as it is.
pub struct EndpointRegistry {
    port: Option<u16>,
}

impl View for EndpointRegistry {
    type V = Option<u16>;

    closed spec fn view(&self) -> Option<u16> {
        self.port
    }
}

impl EndpointRegistry {
    /// A registry that holds no port yet.
    pub fn new() -> (r: EndpointRegistry)
        ensures
            r@ is None,
    {
        EndpointRegistry { port: None }
    }

    /// Stores `port` unless a port is stored already; says whether it did.
    pub fn set(&mut self, port: u16) -> (stored: bool)
        ensures
            stored == (old(self)@ is None),
            final(self)@ == if stored {
                Some(port)
            } else {
                old(self)@
            },
    {
        if self.port.is_none() {
            self.port = Some(port);
            true
        } else {
            false
        }
    }

    /// The port, if one is stored.
    pub fn get(&self) -> (r: Option<u16>)
        ensures
            r == self@,
    {
        self.port
    }

    /// The port, or `NotAvailable` while none is stored.
    pub fn get_port(&self) -> (r: Result<u16, PortError>)
        ensures
            r == answer(self@),
    {
        match self.port {
            Some(p) => Ok(p),
            None => Err(PortError::NotAvailable),
        }
    }
}

impl Default for EndpointRegistry {
    fn default() -> (r: EndpointRegistry)
        ensures
            r@ is None,
    {
        EndpointRegistry::new()
    }
}

/// The boundary command: the worker's port, or the message of
/// `PortError::NotAvailable` while none is known.
pub fn get_sidecar_port(registry: &EndpointRegistry) -> (r: Result<u16, String>)
    ensures
        match registry@ {
            Some(p) => r == Ok::<u16, String>(p),
            None => r matches Err(e) && e@ == "Sidecar port not yet available"@,
        },
{
    match registry.get_port() {
        Ok(p) => Ok(p),
        Err(e) => Err(e.message()),
    }
}

} // verus!
