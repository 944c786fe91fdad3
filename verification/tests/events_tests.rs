use lib_analytics_core::{AnalyticsEvent, EnrichedEvent, Tags};

#[test]
fn event_type_names_each_variant() {
    let e = AnalyticsEvent::AuthLoginAttempt {
        user_id: None,
        email: "a@b.c".to_string(),
        success: false,
        error: Some("bad code".to_string()),
    };
    assert_eq!(e.event_type(), "auth_login_attempt");

    let e = AnalyticsEvent::TaskCompleted {
        task_id: 1,
        user_id: 2,
        duration_ms: 1500,
        exit_code: 0,
    };
    assert_eq!(e.event_type(), "task_completed");

    let e = AnalyticsEvent::OAuthFlowStarted {
        user_id: 3,
        provider: "github".to_string(),
        state: "xyz".to_string(),
    };
    assert_eq!(e.event_type(), "oauth_flow_started");

    let e = AnalyticsEvent::WebhookProcessed {
        integration_id: None,
        provider: "github".to_string(),
        event_type: "push".to_string(),
        delivery_id: "d1".to_string(),
        success: true,
        duration_ms: 12,
        error: None,
    };
    assert_eq!(e.event_type(), "webhook_processed");

    let e = AnalyticsEvent::ApplicationError {
        service: "api".to_string(),
        error_type: "panic".to_string(),
        error_message: "boom".to_string(),
        user_id: None,
        context: None,
    };
    assert_eq!(e.event_type(), "application_error");
}

#[test]
fn service_is_some_only_for_service_scoped_events() {
    let e = AnalyticsEvent::ApiRequest {
        service: "gateway".to_string(),
        endpoint: "/v1/tasks".to_string(),
        method: "GET".to_string(),
        status_code: 200,
        duration_ms: 3,
        user_id: None,
    };
    assert_eq!(e.service(), Some("gateway"));

    let e = AnalyticsEvent::DatabaseQuery {
        service: "tasks".to_string(),
        query_type: "select".to_string(),
        duration_ms: 1,
        rows_affected: Some(4),
    };
    assert_eq!(e.service(), Some("tasks"));

    let e = AnalyticsEvent::ProjectDeleted { project_id: 1, user_id: 2 };
    assert_eq!(e.service(), None);
}

#[test]
fn user_id_follows_the_variant() {
    let e = AnalyticsEvent::AuthCodeVerified { user_id: 42, success: true, error: None };
    assert_eq!(e.user_id(), Some(42));

    let e = AnalyticsEvent::AuthLoginAttempt {
        user_id: None,
        email: "a@b.c".to_string(),
        success: true,
        error: None,
    };
    assert_eq!(e.user_id(), None);

    let e = AnalyticsEvent::CocoonConnected { cocoon_id: 9, user_id: Some(77) };
    assert_eq!(e.user_id(), Some(77));

    let e = AnalyticsEvent::WebhookReceived {
        integration_id: Some(5),
        provider: "github".to_string(),
        event_type: "push".to_string(),
        delivery_id: "d2".to_string(),
    };
    assert_eq!(e.user_id(), None);
}

#[test]
fn enrichment_keeps_event_and_tags_and_stamps_time() {
    let tags = Tags {
        hostname: Some("node-1".to_string()),
        environment: Some("production".to_string()),
    };
    let envelope = EnrichedEvent::new(
        AnalyticsEvent::TaskStarted { task_id: 10, user_id: 20, cocoon_id: None },
        tags,
    );
    assert!(matches!(
        envelope.event,
        AnalyticsEvent::TaskStarted { task_id: 10, user_id: 20, cocoon_id: None }
    ));
    assert_eq!(envelope.hostname.as_deref(), Some("node-1"));
    assert_eq!(envelope.environment.as_deref(), Some("production"));
    // The capture instant is stamped at the call; any instant after 2020
    // (in milliseconds since the Unix epoch) is a sane wall clock here.
    assert!(envelope.timestamp_ms > 1_577_836_800_000);
}
