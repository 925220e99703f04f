use postgirl::models::{
    CreateCollectionRequest, CreateWorkspaceRequest, EnvironmentVariable, HttpMethod,
    ResponseTiming, VariableType,
};
use postgirl::service::GitBranchService;
use postgirl::services::{CredentialService, FileSyncService, GitService};

#[test]
fn test_create_collection_request_validation() {
    let request = CreateCollectionRequest {
        workspace_id: "workspace".to_string(),
        name: "Collection".to_string(),
        description: None,
        folder_path: None,
        git_branch: None,
    };

    assert_eq!(request.workspace_id, "workspace");
    assert_eq!(request.name, "Collection");
    assert!(request.description.is_none());
}

#[test]
fn environment_tests_test_environment_variable_creation() {
    let var = EnvironmentVariable {
        key: "TEST_VAR".to_string(),
        value: "test-value".to_string(),
        variable_type: VariableType::String,
        is_secret: false,
    };

    assert_eq!(var.key, "TEST_VAR");
    assert_eq!(var.value, "test-value");
    assert!(!var.is_secret);
    assert!(matches!(var.variable_type, VariableType::String));
}

#[test]
fn environment_tests_fixed_test_variable_type_validation() {
    // Test VariableType::String
    assert!(VariableType::String.validate_value("regular string"));
    assert!(VariableType::String.validate_value("123"));
    assert!(VariableType::String.validate_value(""));

    // Test VariableType::Secret
    assert!(VariableType::Secret.validate_value("secret-value"));
    assert!(!VariableType::Secret.validate_value(""));
    assert!(!VariableType::Secret.validate_value("   "));
    assert!(VariableType::Secret.validate_value("complex-secret-123!@#"));
}

#[test]
fn environment_tests_fixed_test_environment_variable_creation() {
    let var = EnvironmentVariable {
        key: "TEST_VAR".to_string(),
        value: "test-value".to_string(),
        variable_type: VariableType::String,
        is_secret: false,
    };

    assert_eq!(var.key, "TEST_VAR");
    assert_eq!(var.value, "test-value");
    assert!(!var.is_secret);
    assert!(matches!(var.variable_type, VariableType::String));
}

#[test]
fn git_tests_test_git_service_creation() {
    let _service = GitService::new();
    // Service should be created without errors
    assert!(true);
}

#[test]
fn test_http_method_conversion() {
    assert_eq!(HttpMethod::from("GET"), HttpMethod::Get);
    assert_eq!(HttpMethod::from("get"), HttpMethod::Get);
    assert_eq!(HttpMethod::from("POST"), HttpMethod::Post);
    assert_eq!(HttpMethod::from("PUT"), HttpMethod::Put);
    assert_eq!(HttpMethod::from("DELETE"), HttpMethod::Delete);
    assert_eq!(HttpMethod::from("PATCH"), HttpMethod::Patch);
    assert_eq!(HttpMethod::from("HEAD"), HttpMethod::Head);
    assert_eq!(HttpMethod::from("OPTIONS"), HttpMethod::Options);

    // Unknown method defaults to GET
    assert_eq!(HttpMethod::from("UNKNOWN"), HttpMethod::Get);
}

#[test]
fn simple_unit_tests_test_environment_variable_creation() {
    let var = EnvironmentVariable {
        key: "API_URL".to_string(),
        value: "https://api.example.com".to_string(),
        is_secret: false,
        variable_type: VariableType::String,
    };

    assert_eq!(var.key, "API_URL");
    assert_eq!(var.value, "https://api.example.com");
    assert!(!var.is_secret);
    assert!(matches!(var.variable_type, VariableType::String));
}

#[test]
fn simple_unit_tests_test_variable_type_validation() {
    assert!(VariableType::String.validate_value("any string"));
    assert!(VariableType::String.validate_value(""));

    assert!(VariableType::Secret.validate_value("secret value"));
    assert!(!VariableType::Secret.validate_value(""));
    assert!(!VariableType::Secret.validate_value("   "));
}

#[test]
fn test_variable_type_conversion() {
    assert_eq!(VariableType::String.as_str(), "string");
    assert_eq!(VariableType::Secret.as_str(), "secret");

    assert!(matches!(VariableType::from_str("string"), VariableType::String));
    assert!(matches!(VariableType::from_str("secret"), VariableType::Secret));
    assert!(matches!(VariableType::from_str("unknown"), VariableType::String));
}

#[test]
fn simple_unit_tests_test_git_service_creation() {
    let _service = GitService::new();
    // Just test that we can create the service without errors
    assert!(true);
}

#[test]
fn test_create_workspace_request_validation() {
    // Test valid workspace request
    let request = CreateWorkspaceRequest {
        name: "Test Workspace".to_string(),
        description: Some("A test workspace".to_string()),
        local_path: "~/Documents/Postgirl/test-workspace".to_string(),
        git_repository_url: Some("https://github.com/user/repo.git".to_string()),
    };

    assert_eq!(request.name, "Test Workspace");
    assert_eq!(request.local_path, "~/Documents/Postgirl/test-workspace");
    assert!(request.git_repository_url.is_some());

    // Test workspace request without Git URL
    let request_no_git = CreateWorkspaceRequest {
        name: "Local Workspace".to_string(),
        description: None,
        local_path: "~/Documents/Postgirl/local-workspace".to_string(),
        git_repository_url: None,
    };

    assert_eq!(request_no_git.name, "Local Workspace");
    assert!(request_no_git.git_repository_url.is_none());
    assert!(request_no_git.description.is_none());
}

#[test]
fn secret_with_unicode_whitespace_only_is_invalid() {
    assert!(!VariableType::Secret.validate_value("\u{3000}\t\n"));
    assert!(VariableType::Secret.validate_value(" x "));
}

#[test]
fn http_method_names_round_trip() {
    for m in [
        HttpMethod::Get,
        HttpMethod::Post,
        HttpMethod::Put,
        HttpMethod::Delete,
        HttpMethod::Patch,
        HttpMethod::Head,
        HttpMethod::Options,
    ] {
        assert_eq!(HttpMethod::from(m.as_str()), m);
        assert_eq!(HttpMethod::from_uppercase(m.as_str()), m);
    }
    assert_eq!(HttpMethod::from("options"), HttpMethod::Options);
    assert_eq!(HttpMethod::from_uppercase("post"), HttpMethod::Get);
}

#[test]
fn default_records() {
    let v = EnvironmentVariable::default();
    assert_eq!(v.key, "");
    assert!(matches!(v.variable_type, VariableType::String));
    let t = ResponseTiming::default();
    assert_eq!(t.total_time_ms, 0);
    assert!(t.download_ms.is_none());
}

#[test]
fn credential_service_lists_nothing() {
    let s = CredentialService::new();
    assert_eq!(s.service_name(), "postgirl");
    assert!(s.list_stored_credentials().unwrap().is_empty());
}

#[test]
fn file_names_are_made_safe() {
    let s = FileSyncService::new();
    assert_eq!(s.sanitize_filename("My API: v2/beta"), "my-api_-v2_beta");
    assert_eq!(s.sanitize_filename("..Hidden.."), "hidden");
    assert_eq!(s.sanitize_filename("bell\u{7}"), "bell_");
    assert_eq!(s.sanitize_filename("a<b>c|d\"e*f?g\\h"), "a_b_c_d_e_f_g_h");
}

#[test]
fn system_info_resolution() {
    let info = GitBranchService::detect_system_info(None, Some("jane"), Some("other"), "linux", Some(" host-1\n"), None);
    assert_eq!(info.username, "jane");
    assert_eq!(info.machine_name, "host-1");
    assert_eq!(info.os_type, "Linux");
    let info = GitBranchService::detect_system_info(None, None, None, "windows", None, Some("PC"));
    assert_eq!(info.username, "unknown");
    assert_eq!(info.machine_name, "PC");
    assert_eq!(info.os_type, "Windows");
    let info = GitBranchService::detect_system_info(Some("me"), None, None, "macos", None, None);
    assert_eq!(info.machine_name, "unknown");
    assert_eq!(info.os_type, "macOS");
    let info = GitBranchService::detect_system_info(Some("me"), None, None, "freebsd", Some("x"), Some("y"));
    assert_eq!(info.machine_name, "unknown");
    assert_eq!(info.os_type, "Unknown");
}
