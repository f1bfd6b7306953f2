//! Client-side logic for the Ambient Weather REST API.
//!
//! The crate builds the request URLs, sequences the two-call exchange that
//! resolves a device and fetches its history, and decodes the vendor's sparse
//! JSON objects into typed weather records. It performs no I/O itself: a
//! driver executes the requests and pauses that the fetch machine asks for.
//!
//! ```ignore
//! let (mut fetch, mut action) = Fetch::begin(&credentials, "", false);
//! let latest = loop {
//!     let event = match action {
//!         FetchAction::Get(url) => send(url),
//!         FetchAction::Sleep(milliseconds) => pause(milliseconds),
//!         FetchAction::Done(json) => break decode_one(&json),
//!         FetchAction::Fail(e) => panic!("the fetch failed: {:?}", e),
//!     };
//!     (fetch, action) = fetch.step(event);
//! };
//! ```

pub mod address;
pub mod credentials;
pub mod error;
pub mod fetch;
pub mod json;
pub mod url;
pub mod weather_data;

pub use credentials::AmbientWeatherAPICredentials;
pub use error::FetchError;
pub use fetch::{Fetch, FetchAction, FetchEvent, GUARD_DELAY_MS};
pub use json::{Json, Number};
pub use url::get_aw_api_url;
pub use weather_data::{decode_many, decode_one, decode_strict, WeatherData};
