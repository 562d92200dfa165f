//! Probing an assistant endpoint for the models it serves.
use vstd::prelude::*;
use vstd::string::*;

verus! {

/// What probing an endpoint gave.
pub enum Probe {
    /// The request failed or the endpoint answered with an error status.
    Unreachable,
    /// The endpoint answered successfully; the model names, when the answer
    /// could be read as a model list.
    Answered(Option<Vec<String>>),
}

/// The address that lists the models served under `endpoint`.
pub fn models_url(endpoint: &str) -> (u: String)
    ensures
        u@ == endpoint@ + "/models"@,
{
    let mut u = String::from_str(endpoint);
    u.append("/models");
    u
}

/// An endpoint's status from its probe: online with the models it listed
/// (none when the list could not be read), or offline with no models.
pub fn provider_status(probe: Probe) -> (status: (bool, Vec<String>))
    ensures
        probe is Unreachable ==> !status.0 && status.1@ == Seq::<String>::empty(),
        probe matches Probe::Answered(Some(m)) ==> status.0 && status.1 == m,
        probe matches Probe::Answered(None) ==> status.0 && status.1@ == Seq::<String>::empty(),
{
    match probe {
        Probe::Unreachable => (false, Vec::new()),
        Probe::Answered(Some(m)) => (true, m),
        Probe::Answered(None) => (true, Vec::new()),
    }
}

} // verus!
