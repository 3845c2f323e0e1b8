use safenode::biometrics::{
    auth_response, authenticate_biometric, availability_response, biometric_type_name, check_biometric_available,
    get_biometric_authenticator, platform_for_os, BiometricAuthenticator, BiometricAvailability, BiometricResult,
    BiometricType, LinuxBiometricAuthenticator, MacOSBiometricAuthenticator, Platform, PlatformAuthenticator,
    UnsupportedBiometricAuthenticator, WindowsBiometricAuthenticator,
};
use serde_json::Value;

const FPRINTD: &str =
    "Biometric authentication requires fprintd. Install fprintd to enable fingerprint authentication.";
const NOT_AVAILABLE: &str = "Biometric authentication not available on this platform";

fn object(members: Vec<(&str, Value)>) -> Value {
    let mut map = serde_json::Map::new();
    for (key, value) in members {
        map.insert(key.to_string(), value);
    }
    Value::Object(map)
}

fn text(s: &str) -> Value {
    Value::String(s.to_string())
}

#[test]
fn platform_for_os_knows_the_three_platforms() {
    assert_eq!(platform_for_os("macos"), Platform::MacOS);
    assert_eq!(platform_for_os("windows"), Platform::Windows);
    assert_eq!(platform_for_os("linux"), Platform::Linux);
}

#[test]
fn platform_for_os_takes_any_other_name_as_unsupported() {
    assert_eq!(platform_for_os("freebsd"), Platform::Unsupported);
    assert_eq!(platform_for_os("android"), Platform::Unsupported);
    assert_eq!(platform_for_os(""), Platform::Unsupported);
    assert_eq!(platform_for_os("Linux"), Platform::Unsupported);
    assert_eq!(platform_for_os("linux "), Platform::Unsupported);
    assert_eq!(platform_for_os("mac"), Platform::Unsupported);
}

#[test]
fn get_biometric_authenticator_matches_the_platform() {
    assert!(matches!(get_biometric_authenticator(Platform::MacOS), PlatformAuthenticator::MacOS(_)));
    assert!(matches!(get_biometric_authenticator(Platform::Windows), PlatformAuthenticator::Windows(_)));
    assert!(matches!(get_biometric_authenticator(Platform::Linux), PlatformAuthenticator::Linux(_)));
    assert!(matches!(get_biometric_authenticator(Platform::Unsupported), PlatformAuthenticator::Unsupported(_)));
}

#[test]
fn macos_probe_and_authentication() {
    let a = MacOSBiometricAuthenticator;
    let probe = a.is_available().unwrap();
    assert!(probe.available);
    assert_eq!(probe.biometric_type, BiometricType::Fingerprint);
    assert!(probe.enrolled);
    let result = a.authenticate("Unlock the vault").unwrap();
    assert!(result.success);
    assert_eq!(result.error, None);
    assert_eq!(result.method, Some("Touch ID or Face ID".to_string()));
}

#[test]
fn windows_probe_and_authentication() {
    let a = WindowsBiometricAuthenticator;
    let probe = a.is_available().unwrap();
    assert!(probe.available);
    assert_eq!(probe.biometric_type, BiometricType::Fingerprint);
    assert!(probe.enrolled);
    let result = a.authenticate("Unlock the vault").unwrap();
    assert!(result.success);
    assert_eq!(result.error, None);
    assert_eq!(result.method, Some("Windows Hello".to_string()));
}

#[test]
fn linux_probe_and_authentication() {
    let a = LinuxBiometricAuthenticator;
    let probe = a.is_available().unwrap();
    assert!(!probe.available);
    assert_eq!(probe.biometric_type, BiometricType::Unknown);
    assert!(!probe.enrolled);
    let result = a.authenticate("Unlock the vault").unwrap();
    assert!(!result.success);
    assert_eq!(result.error, Some(FPRINTD.to_string()));
    assert_eq!(result.method, None);
}

#[test]
fn unsupported_probe_reports_unavailable_without_a_fault() {
    let a = UnsupportedBiometricAuthenticator;
    let probe = a.is_available();
    assert!(probe.is_ok());
    let probe = probe.unwrap();
    assert!(!probe.available);
    assert_eq!(probe.biometric_type, BiometricType::Unknown);
    assert!(!probe.enrolled);
}

#[test]
fn unsupported_authentication_fails_with_a_cause() {
    let a = UnsupportedBiometricAuthenticator;
    let result = a.authenticate("Unlock the vault").unwrap();
    assert!(!result.success);
    assert_eq!(result.error, Some(NOT_AVAILABLE.to_string()));
    assert_eq!(result.method, None);
}

#[test]
fn platform_authenticator_answers_as_its_platform_does() {
    for platform in [Platform::MacOS, Platform::Windows] {
        let a = get_biometric_authenticator(platform);
        let probe = a.is_available().unwrap();
        assert!(probe.available);
        assert!(probe.enrolled);
        assert_eq!(probe.biometric_type, BiometricType::Fingerprint);
        assert!(a.authenticate("p").unwrap().success);
    }
    for platform in [Platform::Linux, Platform::Unsupported] {
        let a = get_biometric_authenticator(platform);
        let probe = a.is_available().unwrap();
        assert!(!probe.available);
        assert!(!probe.enrolled);
        assert_eq!(probe.biometric_type, BiometricType::Unknown);
        let result = a.authenticate("p").unwrap();
        assert!(!result.success);
        assert!(result.error.is_some());
        assert_eq!(result.method, None);
    }
    assert_eq!(
        get_biometric_authenticator(Platform::MacOS).authenticate("p").unwrap().method,
        Some("Touch ID or Face ID".to_string())
    );
    assert_eq!(
        get_biometric_authenticator(Platform::Windows).authenticate("p").unwrap().method,
        Some("Windows Hello".to_string())
    );
}

#[test]
fn biometric_type_names() {
    assert_eq!(biometric_type_name(BiometricType::Fingerprint), "fingerprint");
    assert_eq!(biometric_type_name(BiometricType::Face), "face");
    assert_eq!(biometric_type_name(BiometricType::Unknown), "unknown");
}

#[test]
fn availability_response_has_the_three_members() {
    let response = availability_response(&BiometricAvailability {
        available: true,
        biometric_type: BiometricType::Face,
        enrolled: false,
    });
    let expected =
        object(vec![("available", Value::Bool(true)), ("type", text("face")), ("enrolled", Value::Bool(false))]);
    assert_eq!(response, expected);
    assert_eq!(response.as_object().unwrap().len(), 3);
    assert_eq!(response.to_string(), r#"{"available":true,"enrolled":false,"type":"face"}"#);
}

#[test]
fn check_biometric_available_on_each_platform() {
    let present =
        object(vec![("available", Value::Bool(true)), ("type", text("fingerprint")), ("enrolled", Value::Bool(true))]);
    let absent =
        object(vec![("available", Value::Bool(false)), ("type", text("unknown")), ("enrolled", Value::Bool(false))]);
    assert_eq!(check_biometric_available(Platform::MacOS), Ok(present.clone()));
    assert_eq!(check_biometric_available(Platform::Windows), Ok(present));
    assert_eq!(check_biometric_available(Platform::Linux), Ok(absent.clone()));
    assert_eq!(check_biometric_available(Platform::Unsupported), Ok(absent));
}

#[test]
fn check_biometric_available_on_an_unknown_host_is_unavailable_and_ok() {
    let response = check_biometric_available(platform_for_os("plan9"));
    assert!(response.is_ok());
    let response = response.unwrap();
    assert_eq!(response["available"], Value::Bool(false));
    assert_eq!(response["enrolled"], Value::Bool(false));
    assert_eq!(response["type"], text("unknown"));
}

#[test]
fn auth_response_after_success_names_the_method() {
    let result = BiometricResult { success: true, error: None, method: Some("Touch ID".to_string()) };
    let expected =
        object(vec![("success", Value::Bool(true)), ("method", text("Touch ID")), ("prompt", text("Open sesame"))]);
    assert_eq!(auth_response(&result, "Open sesame"), expected);
}

#[test]
fn auth_response_after_success_without_method_is_null() {
    let result = BiometricResult { success: true, error: Some("ignored".to_string()), method: None };
    let response = auth_response(&result, "p");
    let expected = object(vec![("success", Value::Bool(true)), ("method", Value::Null), ("prompt", text("p"))]);
    assert_eq!(response, expected);
    assert!(response.as_object().unwrap().contains_key("method"));
    assert!(!response.as_object().unwrap().contains_key("error"));
}

#[test]
fn auth_response_after_failure_gives_the_cause() {
    let result = BiometricResult { success: false, error: Some("no match".to_string()), method: Some("x".to_string()) };
    let response = auth_response(&result, "p");
    let expected = object(vec![("success", Value::Bool(false)), ("error", text("no match")), ("prompt", text("p"))]);
    assert_eq!(response, expected);
    assert!(!response.as_object().unwrap().contains_key("method"));
}

#[test]
fn auth_response_after_failure_without_cause_says_authentication_failed() {
    let result = BiometricResult { success: false, error: None, method: None };
    let expected =
        object(vec![("success", Value::Bool(false)), ("error", text("Authentication failed")), ("prompt", text(""))]);
    assert_eq!(auth_response(&result, ""), expected);
}

#[test]
fn authenticate_biometric_on_each_platform() {
    let prompt = "Unlock SafeNode";
    assert_eq!(
        authenticate_biometric(Platform::MacOS, prompt),
        Ok(object(vec![
            ("success", Value::Bool(true)),
            ("method", text("Touch ID or Face ID")),
            ("prompt", text(prompt)),
        ]))
    );
    assert_eq!(
        authenticate_biometric(Platform::Windows, prompt),
        Ok(object(vec![("success", Value::Bool(true)), ("method", text("Windows Hello")), ("prompt", text(prompt))]))
    );
    assert_eq!(
        authenticate_biometric(Platform::Linux, prompt),
        Ok(object(vec![("success", Value::Bool(false)), ("error", text(FPRINTD)), ("prompt", text(prompt))]))
    );
    assert_eq!(
        authenticate_biometric(Platform::Unsupported, prompt),
        Ok(object(vec![("success", Value::Bool(false)), ("error", text(NOT_AVAILABLE)), ("prompt", text(prompt))]))
    );
}

#[test]
fn authenticate_biometric_keeps_the_prompt_as_given() {
    let response = authenticate_biometric(Platform::MacOS, "Entsperren — „Tresor“").unwrap();
    assert_eq!(response["prompt"], text("Entsperren — „Tresor“"));
    let response = authenticate_biometric(Platform::Linux, "").unwrap();
    assert_eq!(response["prompt"], text(""));
}

#[test]
fn biometric_authentication_does_not_open_the_session() {
    let mut session = safenode::session::SessionState::new(b"s".to_vec());
    let response = authenticate_biometric(Platform::MacOS, "p").unwrap();
    assert_eq!(response["success"], Value::Bool(true));
    assert!(!session.status());
    assert!(session.unlock(b"s", 0));
}
