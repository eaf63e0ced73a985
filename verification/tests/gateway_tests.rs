use weather_gateway::json::render_envelope;
use weather_gateway::manager::{ClientManager, ConnState, StartupDecision};
use weather_gateway::messages::{BackendError, BackendResponse, Submission};
use weather_gateway::translate::{health_reply, malformed_reply, translate_outcome};

fn submission(municipality: &str, temperature: i32, humidity: i32, weather: &str) -> Submission {
    Submission {
        municipality: municipality.to_string(),
        temperature,
        humidity,
        weather: weather.to_string(),
    }
}

#[test]
fn submission_translates_to_backend_request() {
    let sub = submission("guatemala", 25, 60, "sunny");
    let req = weather_gateway::messages::to_backend_request(&sub);
    assert_eq!(req.municipality_code, 2);
    assert_eq!(req.temperature, 25);
    assert_eq!(req.humidity, 60);
    assert_eq!(req.weather_code, 1);
}

#[test]
fn measurements_pass_through_unmodified() {
    let sub = submission("nowhere", -15, 101, "hail");
    let req = weather_gateway::messages::to_backend_request(&sub);
    assert_eq!(req.municipality_code, 0);
    assert_eq!(req.temperature, -15);
    assert_eq!(req.humidity, 101);
    assert_eq!(req.weather_code, 0);
}

#[test]
fn successful_call_becomes_http_200_success() {
    let reply = translate_outcome(Ok(BackendResponse { status_message: "ok".to_string() }));
    assert_eq!(reply.code, 200);
    assert_eq!(reply.envelope.status, "success");
    assert_eq!(reply.envelope.message, "ok");
    assert_eq!(
        render_envelope(&reply.envelope),
        "{\"status\":\"success\",\"message\":\"ok\"}"
    );
}

#[test]
fn unavailable_backend_becomes_http_503_error() {
    let reply = translate_outcome(Err(BackendError::Unavailable));
    assert_eq!(reply.code, 503);
    assert_eq!(reply.envelope.status, "error");
    assert_eq!(reply.envelope.message, "gRPC service unavailable");
    assert_eq!(
        render_envelope(&reply.envelope),
        "{\"status\":\"error\",\"message\":\"gRPC service unavailable\"}"
    );
}

#[test]
fn failed_call_becomes_http_500_with_description() {
    let reply = translate_outcome(Err(BackendError::CallFailed("status: Internal".to_string())));
    assert_eq!(reply.code, 500);
    assert_eq!(reply.envelope.status, "error");
    assert_eq!(reply.envelope.message, "Error: status: Internal");
}

#[test]
fn health_is_up_even_after_a_failed_call() {
    let mut manager = ClientManager::new();
    manager.begin_connect();
    assert_eq!(manager.finish_connect(true), StartupDecision::Serve);
    let sub = submission("guatemala", 25, 60, "sunny");
    let req = manager.plan_call(&sub).expect("connected manager plans a call");
    manager.record_call(req, false);
    assert_eq!(manager.state, ConnState::Degraded);
    let reply = translate_outcome(Err(BackendError::CallFailed("boom".to_string())));
    assert_eq!(reply.code, 500);
    assert_eq!(reply.envelope.status, "error");
    let health = health_reply();
    assert_eq!(health.code, 200);
    assert_eq!(health.envelope.status, "success");
}

#[test]
fn malformed_body_is_http_400_error() {
    let reply = malformed_reply();
    assert_eq!(reply.code, 400);
    assert_eq!(reply.envelope.status, "error");
}

#[test]
fn startup_failure_aborts_before_serving() {
    let mut manager = ClientManager::new();
    assert_eq!(manager.state, ConnState::Disconnected);
    manager.begin_connect();
    assert_eq!(manager.state, ConnState::Connecting);
    let decision = manager.finish_connect(false);
    assert_eq!(decision, StartupDecision::Abort);
    assert_eq!(manager.state, ConnState::Disconnected);
    let sub = submission("mixco", 20, 55, "cloudy");
    assert!(manager.plan_call(&sub).is_none());
}

#[test]
fn startup_success_serves_and_plans_calls() {
    let mut manager = ClientManager::new();
    manager.begin_connect();
    let decision = manager.finish_connect(true);
    assert_eq!(decision, StartupDecision::Serve);
    assert_eq!(manager.state, ConnState::Connected);
    let sub = submission("chinautla", 18, 80, "rainy");
    let req = manager.plan_call(&sub).expect("connected manager plans a call");
    assert_eq!(req.municipality_code, 4);
    assert_eq!(req.weather_code, 3);
    manager.record_call(req, true);
    assert_eq!(manager.state, ConnState::Connected);
}

#[test]
fn degraded_connection_still_attempts_calls() {
    let mut manager = ClientManager::new();
    manager.begin_connect();
    manager.finish_connect(true);
    let sub = submission("amatitlan", 30, 40, "foggy");
    let req = manager.plan_call(&sub).expect("connected manager plans a call");
    manager.record_call(req, false);
    assert_eq!(manager.state, ConnState::Degraded);
    let again = manager.plan_call(&sub).expect("degraded manager still plans calls");
    assert_eq!(again.municipality_code, 3);
    assert_eq!(again.weather_code, 4);
}
