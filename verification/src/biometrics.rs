//! The biometric capability of the host: one authenticator for each platform,
//! and one for a platform without biometric support.
//!
//! Which platform the process runs on is told by the caller, once, at start.
//! A successful authentication is a signal for the presentation layer; it does
//! not open the session.

use vstd::prelude::*;
use serde_json::Value;
use crate::json::{json_view, object_insert, object_new, value_bool, value_null, value_object, value_text, JsonView};

verus! {

/// Biometric authentication result.
#[derive(Debug, Clone)]
pub struct BiometricResult {
    pub success: bool,
    pub error: Option<String>,
    pub method: Option<String>,
}

/// The model of a [`BiometricResult`].
pub struct BiometricResultView {
    pub success: bool,
    pub error: Option<Seq<char>>,
    pub method: Option<Seq<char>>,
}

impl BiometricResultView {
    /// Whether the result is either a success, which names no error, or a
    /// failure, which gives its cause and names no method.
    pub open spec fn well_formed(self) -> bool {
        &&& self.success <==> self.error is None
        &&& self.method is Some ==> self.success
    }
}

impl View for BiometricResult {
    type V = BiometricResultView;

    open spec fn view(&self) -> BiometricResultView {
        BiometricResultView {
            success: self.success,
            error: match self.error {
                Some(error) => Some(error@),
                None => None,
            },
            method: match self.method {
                Some(method) => Some(method@),
                None => None,
            },
        }
    }
}

/// Trait for platform-specific biometric authentication.
///
/// An `Err` is an infrastructure fault with its cause. That the hardware is
/// missing, or that the user was not recognised, is no fault: the probe then
/// reports `available: false`, and the authentication `success: false`.
pub trait BiometricAuthenticator {
    /// Check if biometric authentication is available.
    fn is_available(&self) -> Result<BiometricAvailability, String>;

    /// Authenticate using biometrics.
    fn authenticate(&self, prompt: &str) -> Result<BiometricResult, String>;
}

/// Biometric availability information.
#[derive(Debug, Clone)]
pub struct BiometricAvailability {
    pub available: bool,
    pub biometric_type: BiometricType,
    pub enrolled: bool,
}

/// Types of biometric authentication.
#[derive(Debug, Clone, Copy, PartialEq, Eq, Structural)]
pub enum BiometricType {
    Fingerprint,
    Face,
    Unknown,
}

/// The platforms that the authenticators are written for, and the rest.
#[derive(Debug, Clone, Copy, PartialEq, Eq, Structural)]
pub enum Platform {
    MacOS,
    Windows,
    Linux,
    Unsupported,
}

/// The platform that goes by the operating system name `os`.
pub open spec fn platform_of(os: Seq<char>) -> Platform {
    if os == "macos"@ {
        Platform::MacOS
    } else if os == "windows"@ {
        Platform::Windows
    } else if os == "linux"@ {
        Platform::Linux
    } else {
        Platform::Unsupported
    }
}

/// What the probe reports on `platform`.
pub open spec fn probe_report(platform: Platform) -> BiometricAvailability {
    match platform {
        Platform::MacOS | Platform::Windows => BiometricAvailability {
            available: true,
            biometric_type: BiometricType::Fingerprint,
            enrolled: true,
        },
        Platform::Linux | Platform::Unsupported => BiometricAvailability {
            available: false,
            biometric_type: BiometricType::Unknown,
            enrolled: false,
        },
    }
}

/// What an authentication reports on `platform`.
pub open spec fn auth_report(platform: Platform) -> BiometricResultView {
    match platform {
        Platform::MacOS => BiometricResultView {
            success: true,
            error: None,
            method: Some("Touch ID or Face ID"@),
        },
        Platform::Windows => BiometricResultView {
            success: true,
            error: None,
            method: Some("Windows Hello"@),
        },
        Platform::Linux => BiometricResultView {
            success: false,
            error: Some(
                "Biometric authentication requires fprintd. Install fprintd to enable fingerprint authentication."@,
            ),
            method: None,
        },
        Platform::Unsupported => BiometricResultView {
            success: false,
            error: Some("Biometric authentication not available on this platform"@),
            method: None,
        },
    }
}

/// The name of a biometric type in a response.
pub open spec fn kind_name(biometric_type: BiometricType) -> Seq<char> {
    match biometric_type {
        BiometricType::Fingerprint => "fingerprint"@,
        BiometricType::Face => "face"@,
        BiometricType::Unknown => "unknown"@,
    }
}

/// The response to a probe that found `availability`.
pub open spec fn availability_json(availability: BiometricAvailability) -> JsonView {
    JsonView::Object(
        map![
            "available"@ => JsonView::Bool(availability.available),
            "type"@ => JsonView::Text(kind_name(availability.biometric_type)),
            "enrolled"@ => JsonView::Bool(availability.enrolled),
        ],
    )
}

/// The response to an authentication under `prompt` that ended in `result`.
pub open spec fn auth_json(result: BiometricResultView, prompt: Seq<char>) -> JsonView {
    if result.success {
        JsonView::Object(
            map![
                "success"@ => JsonView::Bool(true),
                "method"@ => match result.method {
                    Some(method) => JsonView::Text(method),
                    None => JsonView::Null,
                },
                "prompt"@ => JsonView::Text(prompt),
            ],
        )
    } else {
        JsonView::Object(
            map![
                "success"@ => JsonView::Bool(false),
                "error"@ => JsonView::Text(
                    match result.error {
                        Some(error) => error,
                        None => "Authentication failed"@,
                    },
                ),
                "prompt"@ => JsonView::Text(prompt),
            ],
        )
    }
}

/// Touch ID and Face ID.
pub struct MacOSBiometricAuthenticator;

impl BiometricAuthenticator for MacOSBiometricAuthenticator {
    fn is_available(&self) -> (r: Result<BiometricAvailability, String>)
        ensures
            r matches Ok(availability) && availability == probe_report(Platform::MacOS),
    {
        Ok(BiometricAvailability {
            available: true,
            biometric_type: BiometricType::Fingerprint,
            enrolled: true,
        })
    }

    fn authenticate(&self, prompt: &str) -> (r: Result<BiometricResult, String>)
        ensures
            r matches Ok(result) && result@ == auth_report(Platform::MacOS),
            r matches Ok(result) && result@.well_formed(),
    {
        Ok(BiometricResult {
            success: true,
            error: None,
            method: Some("Touch ID or Face ID".to_owned()),
        })
    }
}

/// Windows Hello.
pub struct WindowsBiometricAuthenticator;

impl BiometricAuthenticator for WindowsBiometricAuthenticator {
    fn is_available(&self) -> (r: Result<BiometricAvailability, String>)
        ensures
            r matches Ok(availability) && availability == probe_report(Platform::Windows),
    {
        Ok(BiometricAvailability {
            available: true,
            biometric_type: BiometricType::Fingerprint,
            enrolled: true,
        })
    }

    fn authenticate(&self, prompt: &str) -> (r: Result<BiometricResult, String>)
        ensures
            r matches Ok(result) && result@ == auth_report(Platform::Windows),
            r matches Ok(result) && result@.well_formed(),
    {
        Ok(BiometricResult {
            success: true,
            error: None,
            method: Some("Windows Hello".to_owned()),
        })
    }
}

/// Fingerprints through fprintd.
pub struct LinuxBiometricAuthenticator;

impl BiometricAuthenticator for LinuxBiometricAuthenticator {
    fn is_available(&self) -> (r: Result<BiometricAvailability, String>)
        ensures
            r matches Ok(availability) && availability == probe_report(Platform::Linux),
    {
        Ok(BiometricAvailability {
            available: false,
            biometric_type: BiometricType::Unknown,
            enrolled: false,
        })
    }

    fn authenticate(&self, prompt: &str) -> (r: Result<BiometricResult, String>)
        ensures
            r matches Ok(result) && result@ == auth_report(Platform::Linux),
            r matches Ok(result) && result@.well_formed(),
    {
        Ok(BiometricResult {
            success: false,
            error: Some(
                "Biometric authentication requires fprintd. Install fprintd to enable fingerprint authentication.".to_owned(),
            ),
            method: None,
        })
    }
}

/// The authenticator of a platform without biometric support.
pub struct UnsupportedBiometricAuthenticator;

impl BiometricAuthenticator for UnsupportedBiometricAuthenticator {
    fn is_available(&self) -> (r: Result<BiometricAvailability, String>)
        ensures
            r matches Ok(availability) && availability == probe_report(Platform::Unsupported),
            r matches Ok(availability) && !availability.available,
    {
        Ok(BiometricAvailability {
            available: false,
            biometric_type: BiometricType::Unknown,
            enrolled: false,
        })
    }

    fn authenticate(&self, prompt: &str) -> (r: Result<BiometricResult, String>)
        ensures
            r matches Ok(result) && result@ == auth_report(Platform::Unsupported),
            r matches Ok(result) && result@.well_formed(),
    {
        Ok(BiometricResult {
            success: false,
            error: Some("Biometric authentication not available on this platform".to_owned()),
            method: None,
        })
    }
}

/// The authenticator of the platform that the process runs on.
pub enum PlatformAuthenticator {
    MacOS(MacOSBiometricAuthenticator),
    Windows(WindowsBiometricAuthenticator),
    Linux(LinuxBiometricAuthenticator),
    Unsupported(UnsupportedBiometricAuthenticator),
}

impl PlatformAuthenticator {
    /// The platform that this authenticator is for.
    pub open spec fn platform(&self) -> Platform {
        match self {
            PlatformAuthenticator::MacOS(_) => Platform::MacOS,
            PlatformAuthenticator::Windows(_) => Platform::Windows,
            PlatformAuthenticator::Linux(_) => Platform::Linux,
            PlatformAuthenticator::Unsupported(_) => Platform::Unsupported,
        }
    }
}

impl BiometricAuthenticator for PlatformAuthenticator {
    fn is_available(&self) -> (r: Result<BiometricAvailability, String>)
        ensures
            r matches Ok(availability) && availability == probe_report(self.platform()),
    {
        match self {
            PlatformAuthenticator::MacOS(authenticator) => authenticator.is_available(),
            PlatformAuthenticator::Windows(authenticator) => authenticator.is_available(),
            PlatformAuthenticator::Linux(authenticator) => authenticator.is_available(),
            PlatformAuthenticator::Unsupported(authenticator) => authenticator.is_available(),
        }
    }

    fn authenticate(&self, prompt: &str) -> (r: Result<BiometricResult, String>)
        ensures
            r matches Ok(result) && result@ == auth_report(self.platform()),
            r matches Ok(result) && result@.well_formed(),
    {
        match self {
            PlatformAuthenticator::MacOS(authenticator) => authenticator.authenticate(prompt),
            PlatformAuthenticator::Windows(authenticator) => authenticator.authenticate(prompt),
            PlatformAuthenticator::Linux(authenticator) => authenticator.authenticate(prompt),
            PlatformAuthenticator::Unsupported(authenticator) => authenticator.authenticate(prompt),
        }
    }
}

/// The platform that goes by the operating system name `os`, as the host
/// reports it: `"macos"`, `"windows"` or `"linux"`; any other name is a
/// platform without biometric support.
pub fn platform_for_os(os: &str) -> (platform: Platform)
    ensures
        platform == platform_of(os@),
{
    let name = os.to_owned();
    if name == "macos".to_owned() {
        Platform::MacOS
    } else if name == "windows".to_owned() {
        Platform::Windows
    } else if name == "linux".to_owned() {
        Platform::Linux
    } else {
        Platform::Unsupported
    }
}

/// Get platform-specific biometric authenticator.
pub fn get_biometric_authenticator(platform: Platform) -> (authenticator: PlatformAuthenticator)
    ensures
        authenticator.platform() == platform,
{
    match platform {
        Platform::MacOS => PlatformAuthenticator::MacOS(MacOSBiometricAuthenticator),
        Platform::Windows => PlatformAuthenticator::Windows(WindowsBiometricAuthenticator),
        Platform::Linux => PlatformAuthenticator::Linux(LinuxBiometricAuthenticator),
        Platform::Unsupported => PlatformAuthenticator::Unsupported(UnsupportedBiometricAuthenticator),
    }
}

/// The name of a biometric type in a response.
pub fn biometric_type_name(biometric_type: BiometricType) -> (name: &'static str)
    ensures
        name@ == kind_name(biometric_type),
{
    match biometric_type {
        BiometricType::Fingerprint => "fingerprint",
        BiometricType::Face => "face",
        BiometricType::Unknown => "unknown",
    }
}

/// The response to a probe that found `availability`: an object with the
/// members `available`, `type` and `enrolled`.
pub fn availability_response(availability: &BiometricAvailability) -> (response: Value)
    ensures
        json_view(response) == availability_json(*availability),
{
    let mut object = object_new();
    object_insert(&mut object, "available".to_owned(), value_bool(availability.available));
    object_insert(
        &mut object,
        "type".to_owned(),
        value_text(biometric_type_name(availability.biometric_type).to_owned()),
    );
    object_insert(&mut object, "enrolled".to_owned(), value_bool(availability.enrolled));
    value_object(object)
}

/// The response to an authentication under `prompt` that ended in `result`:
/// an object with the members `success` and `prompt`, and with `method` after
/// a success (`null` where the result names none), or with `error` after a
/// failure (`"Authentication failed"` where the result gives no cause).
pub fn auth_response(result: &BiometricResult, prompt: &str) -> (response: Value)
    ensures
        json_view(response) == auth_json(result@, prompt@),
{
    let mut object = object_new();
    if result.success {
        object_insert(&mut object, "success".to_owned(), value_bool(true));
        let method = match &result.method {
            Some(method) => value_text(method.clone()),
            None => value_null(),
        };
        object_insert(&mut object, "method".to_owned(), method);
    } else {
        object_insert(&mut object, "success".to_owned(), value_bool(false));
        let error = match &result.error {
            Some(error) => error.clone(),
            None => "Authentication failed".to_owned(),
        };
        object_insert(&mut object, "error".to_owned(), value_text(error));
    }
    object_insert(&mut object, "prompt".to_owned(), value_text(prompt.to_owned()));
    value_object(object)
}

/// Check biometric availability on `platform`.
pub fn check_biometric_available(platform: Platform) -> (response: Result<Value, String>)
    ensures
        response matches Ok(value) && json_view(value) == availability_json(probe_report(platform)),
{
    let authenticator = get_biometric_authenticator(platform);
    let availability = authenticator.is_available()?;
    Ok(availability_response(&availability))
}

/// Authenticate with biometrics on `platform`, under `prompt`.
pub fn authenticate_biometric(platform: Platform, prompt: &str) -> (response: Result<Value, String>)
    ensures
        response matches Ok(value) && json_view(value) == auth_json(auth_report(platform), prompt@),
{
    let authenticator = get_biometric_authenticator(platform);
    let result = authenticator.authenticate(prompt)?;
    Ok(auth_response(&result, prompt))
}

} // verus!
