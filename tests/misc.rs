use superbuilder_client::config::{Config, GrpcConfig};
use superbuilder_client::mail::{escape_mail_body, mail_arguments};
use superbuilder_client::models::missing_models;
use superbuilder_client::status::{health_check_result, HealthCheckStatus};
use superbuilder_client::text::{decimal_text, is_blank, same_text};

#[test]
fn status_words_decode() {
    assert_eq!(HealthCheckStatus::from_message("ready"), HealthCheckStatus::Ready);
    assert_eq!(HealthCheckStatus::from_message("llmmodelnotfound"), HealthCheckStatus::LlmModelNotFound);
    assert_eq!(
        HealthCheckStatus::from_message("embeddingmodelnotfound"),
        HealthCheckStatus::EmbeddingModelNotFound
    );
    assert_eq!(HealthCheckStatus::from_message("downloading"), HealthCheckStatus::Downloading);
    assert_eq!(HealthCheckStatus::from_message("healthy"), HealthCheckStatus::Healthy);
    assert_eq!(HealthCheckStatus::from_message("notready"), HealthCheckStatus::NotReady);
    assert_eq!(HealthCheckStatus::from_message("unhealthy"), HealthCheckStatus::Unhealthy);
    assert_eq!(HealthCheckStatus::from_message("Ready"), HealthCheckStatus::Unknown);
    assert_eq!(HealthCheckStatus::from_message(""), HealthCheckStatus::Unknown);
}

#[test]
fn health_results() {
    assert_eq!(health_check_result("ready"), Ok(()));
    assert_eq!(health_check_result("healthy"), Ok(()));
    assert_eq!(health_check_result("llmmodelnotfound"), Err("LLM mode is not found".to_string()));
    assert_eq!(health_check_result("embeddingmodelnotfound"), Err("Embedding mode is not found".to_string()));
    assert_eq!(health_check_result("downloading"), Err("Asset is downloading".to_string()));
    assert_eq!(health_check_result("unhealthy"), Err("PyLlmService is unhealthy".to_string()));
    assert_eq!(health_check_result("notready"), Err("PyLlmService is not ready".to_string()));
    assert_eq!(health_check_result("???"), Err("PyLlmService is not available".to_string()));
}

#[test]
fn endpoint_defaults() {
    let c = Config { grpc: GrpcConfig { host: None, port: None } };
    assert_eq!(c.endpoint(), "http://localhost:50051");
}

#[test]
fn endpoint_configured() {
    let c = Config { grpc: GrpcConfig { host: Some("10.0.0.2".to_string()), port: Some(8) } };
    assert_eq!(c.endpoint(), "http://10.0.0.2:8");
    let c = Config { grpc: GrpcConfig { host: Some("h".to_string()), port: Some(65535) } };
    assert_eq!(c.endpoint(), "http://h:65535");
    let c = Config { grpc: GrpcConfig { host: None, port: Some(0) } };
    assert_eq!(c.endpoint(), "http://localhost:0");
}

#[test]
fn decimal_numerals() {
    assert_eq!(decimal_text(0), "0");
    assert_eq!(decimal_text(10), "10");
    assert_eq!(decimal_text(u64::MAX), u64::MAX.to_string());
}

#[test]
fn blank_and_equal_texts() {
    assert!(is_blank(""));
    assert!(is_blank(" \t\r\n\u{a0}\u{2028}"));
    assert!(!is_blank(" x "));
    assert!(same_text("abc", "abc"));
    assert!(!same_text("abc", "abd"));
    assert!(!same_text("ab", "abc"));
}

#[test]
fn mail_body_escaping() {
    assert_eq!(escape_mail_body(r#"50% "off" & more?"#), "50%25 %22off%22 %26 more%3F");
    assert_eq!(escape_mail_body("%22"), "%2522");
    assert_eq!(escape_mail_body(""), "");
}

#[test]
fn mail_arguments_with_and_without_recipient() {
    assert_eq!(
        mail_arguments(Some("a@b.c".to_string()), "Hi", "x&y"),
        "a@b.c?subject=Hi&body=x%26y"
    );
    assert_eq!(mail_arguments(None, "S", "m"), "noreply@example.org?subject=S&body=m");
}

#[test]
fn missing_models_keeps_order() {
    let models = vec!["a".to_string(), "b".to_string(), "c".to_string(), "a".to_string()];
    let present = vec!["b".to_string(), "z".to_string()];
    assert_eq!(missing_models(models, &present), vec!["a".to_string(), "c".to_string(), "a".to_string()]);
    assert!(missing_models(vec!["x".to_string()], &vec!["x".to_string()]).is_empty());
    assert_eq!(missing_models(vec!["x".to_string()], &Vec::new()), vec!["x".to_string()]);
}
