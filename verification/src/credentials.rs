//! The keys and the device selection that every request carries.

use vstd::prelude::*;

verus! {

/// The API and application keys, the index of the device of interest, and
/// the choice between the two vendor hosts.
#[derive(Clone, Debug)]
pub struct AmbientWeatherAPICredentials {
    /// The API key received from Ambient Weather.
    pub api_key: String,
    /// The application key received from Ambient Weather.
    pub app_key: String,
    /// The position of the device in the account's device listing; 0 for a
    /// user with a single station.
    pub device_id: usize,
    /// Whether the alternate (`rt`) host is used instead of the stable
    /// (`api`) one.
    pub use_new_api_endpoint: bool,
}

/// Credentials as a mathematical value: the keys are character sequences.
pub struct CredentialsView {
    pub api_key: Seq<char>,
    pub app_key: Seq<char>,
    pub device_id: usize,
    pub use_new_api_endpoint: bool,
}

impl View for AmbientWeatherAPICredentials {
    type V = CredentialsView;

    open spec fn view(&self) -> CredentialsView {
        CredentialsView {
            api_key: self.api_key@,
            app_key: self.app_key@,
            device_id: self.device_id,
            use_new_api_endpoint: self.use_new_api_endpoint,
        }
    }
}

impl AmbientWeatherAPICredentials {
    /// A copy of the credentials.
    pub fn duplicate(&self) -> (copy: AmbientWeatherAPICredentials)
        ensures
            copy@ == self@,
    {
        AmbientWeatherAPICredentials {
            api_key: self.api_key.clone(),
            app_key: self.app_key.clone(),
            device_id: self.device_id,
            use_new_api_endpoint: self.use_new_api_endpoint,
        }
    }
}

} // verus!
