use bwhc_kafka_rest_proxy::bwhc_client::{
    BwhcClient, HttpMethod, HttpRequest, HttpResponse, REQUEST_TIMEOUT_SECS,
};
use bwhc_kafka_rest_proxy::config::{Config, Settings};
use bwhc_kafka_rest_proxy::error::AppError;

#[test]
fn should_post_record_to_mtb_file() {
    let request = BwhcClient::mtb_file_request("http://localhost:9000/bwhc", r#"{"a":1}"#);

    assert_eq!(
        request,
        HttpRequest {
            method: HttpMethod::Post,
            url: "http://localhost:9000/bwhc/MTBFile".to_string(),
            body: Some(r#"{"a":1}"#.to_string()),
            content_type: "application/json".to_string(),
            timeout_secs: 5,
        }
    );
}

#[test]
fn should_delete_record_by_patient_id() {
    let request = BwhcClient::delete_request("http://localhost:9000/bwhc", "P 1/2");

    assert_eq!(
        request,
        HttpRequest {
            method: HttpMethod::Delete,
            url: "http://localhost:9000/bwhc/MTBFile/P 1/2".to_string(),
            body: None,
            content_type: "application/json".to_string(),
            timeout_secs: REQUEST_TIMEOUT_SECS,
        }
    );
}

#[test]
fn should_take_unreadable_body_as_empty() {
    assert_eq!(
        HttpResponse::from_exchange(201, Some("created".to_string())),
        HttpResponse {
            status_code: 201,
            status_body: "created".to_string()
        }
    );
    assert_eq!(
        HttpResponse::from_exchange(502, None),
        HttpResponse {
            status_code: 502,
            status_body: String::new()
        }
    );
}

#[test]
fn should_write_error_with_its_cause() {
    assert_eq!(
        AppError::ConnectionError("broker down".to_string()).to_string(),
        "ConnectionError: broker down".to_string()
    );
    assert_eq!(
        AppError::MissingConfig("APP_REST_URI".to_string()).to_string(),
        "Missing config: APP_REST_URI".to_string()
    );
    assert_eq!(
        AppError::HttpError("timed out".to_string()).to_string(),
        "HTTP error: timed out".to_string()
    );
    assert_eq!(
        AppError::HttpError(String::new()).to_string(),
        "HTTP error: ".to_string()
    );
}

#[test]
fn should_fill_in_defaults() {
    let config = Config::resolve(Settings {
        rest_uri: Some("http://localhost".to_string()),
        ..Settings::default()
    });

    assert_eq!(
        config,
        Ok(Config {
            rest_uri: "http://localhost".to_string(),
            bootstrap_servers: "kafka:9092".to_string(),
            topic: "etl-processor".to_string(),
            response_topic: "etl-processor_response".to_string(),
            group_id: "etl-processor_group".to_string(),
        })
    );
}

#[test]
fn should_name_response_topic_and_group_after_topic() {
    let config = Config::resolve(Settings {
        rest_uri: Some("http://localhost".to_string()),
        topic: Some("mtb".to_string()),
        ..Settings::default()
    })
    .unwrap();

    assert_eq!(config.topic, "mtb".to_string());
    assert_eq!(config.response_topic, "mtb_response".to_string());
    assert_eq!(config.group_id, "mtb_group".to_string());
}

#[test]
fn should_keep_every_given_setting() {
    let config = Config::resolve(Settings {
        rest_uri: Some("http://registry/rest".to_string()),
        bootstrap_servers: Some("broker:9093".to_string()),
        topic: Some("in".to_string()),
        response_topic: Some("out".to_string()),
        group_id: Some("relay".to_string()),
    });

    assert_eq!(
        config,
        Ok(Config {
            rest_uri: "http://registry/rest".to_string(),
            bootstrap_servers: "broker:9093".to_string(),
            topic: "in".to_string(),
            response_topic: "out".to_string(),
            group_id: "relay".to_string(),
        })
    );
}

#[test]
fn should_fail_without_registry_address() {
    let config = Config::resolve(Settings {
        topic: Some("mtb".to_string()),
        ..Settings::default()
    });

    assert_eq!(
        config,
        Err(AppError::MissingConfig("APP_REST_URI".to_string()))
    );
}
