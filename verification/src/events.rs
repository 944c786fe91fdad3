//! The event catalog and the enrichment step.
//!
//! An [`AnalyticsEvent`] is one variant of a closed tagged union of domain
//! events. Identifiers are carried as their 128-bit integer value. The
//! enricher wraps an event into an [`EnrichedEvent`], stamping the capture
//! time and the optional host/environment tags at the moment of the call.

use vstd::prelude::*;

verus! {

/// `serde_json::Value` appears in the catalog as an opaque context payload;
/// the library carries it through without reading it.
#[verifier::external_type_specification]
#[verifier::external_body]
pub struct ExJsonValue(serde_json::Value);

/// Analytics event types covering all platform services.
///
/// Identifier fields hold the 128-bit value of the corresponding UUID.
#[derive(Debug, Clone)]
pub enum AnalyticsEvent {
    /// User requested a login code.
    AuthLoginAttempt { user_id: Option<u128>, email: String, success: bool, error: Option<String> },
    /// User verified a login code.
    AuthCodeVerified { user_id: u128, success: bool, error: Option<String> },
    /// Token refresh attempt.
    AuthTokenRefresh { user_id: u128, success: bool, error: Option<String> },
    /// Session validation.
    AuthSessionValidated { user_id: u128, valid: bool },
    /// Task created.
    TaskCreated { task_id: u128, user_id: u128, project_id: Option<u128>, cocoon_id: Option<u128>, command: String },
    /// Task started execution.
    TaskStarted { task_id: u128, user_id: u128, cocoon_id: Option<u128> },
    /// Task completed successfully.
    TaskCompleted { task_id: u128, user_id: u128, duration_ms: i64, exit_code: i32 },
    /// Task failed.
    TaskFailed { task_id: u128, user_id: u128, duration_ms: Option<i64>, exit_code: Option<i32>, error: String },
    /// Task cancelled by the user.
    TaskCancelled { task_id: u128, user_id: u128, duration_ms: Option<i64> },
    /// Integration connected.
    IntegrationConnected { integration_id: u128, user_id: u128, provider: String, project_id: Option<u128> },
    /// Integration disconnected.
    IntegrationDisconnected { integration_id: u128, user_id: u128, provider: String, reason: Option<String> },
    /// Integration used.
    IntegrationUsed { integration_id: u128, user_id: u128, provider: String, action: String },
    /// Integration error occurred.
    IntegrationError { integration_id: u128, user_id: u128, provider: String, error: String },
    /// OAuth flow started.
    OAuthFlowStarted { user_id: u128, provider: String, state: String },
    /// OAuth flow completed.
    OAuthFlowCompleted { user_id: u128, provider: String, success: bool, error: Option<String> },
    /// Webhook received.
    WebhookReceived { integration_id: Option<u128>, provider: String, event_type: String, delivery_id: String },
    /// Webhook processing completed.
    WebhookProcessed { integration_id: Option<u128>, provider: String, event_type: String, delivery_id: String, success: bool, duration_ms: i64, error: Option<String> },
    /// Cocoon registered.
    CocoonRegistered { cocoon_id: u128, user_id: u128, device_name: Option<String> },
    /// Cocoon connected to the signaling server.
    CocoonConnected { cocoon_id: u128, user_id: Option<u128> },
    /// Cocoon disconnected.
    CocoonDisconnected { cocoon_id: u128, user_id: Option<u128>, duration_seconds: i64 },
    /// Cocoon claimed by a user.
    CocoonClaimed { cocoon_id: u128, user_id: u128, via_setup_token: bool },
    /// Cocoon setup token created.
    CocoonSetupTokenCreated { token_id: u128, user_id: u128, cocoon_name: Option<String> },
    /// Cocoon setup token used.
    CocoonSetupTokenUsed { token_id: u128, cocoon_id: u128, user_id: u128 },
    /// Project created.
    ProjectCreated { project_id: u128, user_id: u128, name: String },
    /// Project updated.
    ProjectUpdated { project_id: u128, user_id: u128 },
    /// Project deleted.
    ProjectDeleted { project_id: u128, user_id: u128 },
    /// API request made.
    ApiRequest { service: String, endpoint: String, method: String, status_code: u16, duration_ms: i64, user_id: Option<u128> },
    /// Database query executed.
    DatabaseQuery { service: String, query_type: String, duration_ms: i64, rows_affected: Option<i64> },
    /// Application error occurred.
    ApplicationError { service: String, error_type: String, error_message: String, user_id: Option<u128>, context: Option<serde_json::Value> },
}

impl AnalyticsEvent {
    /// The stable lowercase-with-underscores name of this variant, as
    /// [`Self::event_type`] returns it.
    pub open spec fn type_tag(&self) -> Seq<char> {
        match self {
            AnalyticsEvent::AuthLoginAttempt { .. } => "auth_login_attempt"@,
            AnalyticsEvent::AuthCodeVerified { .. } => "auth_code_verified"@,
            AnalyticsEvent::AuthTokenRefresh { .. } => "auth_token_refresh"@,
            AnalyticsEvent::AuthSessionValidated { .. } => "auth_session_validated"@,
            AnalyticsEvent::TaskCreated { .. } => "task_created"@,
            AnalyticsEvent::TaskStarted { .. } => "task_started"@,
            AnalyticsEvent::TaskCompleted { .. } => "task_completed"@,
            AnalyticsEvent::TaskFailed { .. } => "task_failed"@,
            AnalyticsEvent::TaskCancelled { .. } => "task_cancelled"@,
            AnalyticsEvent::IntegrationConnected { .. } => "integration_connected"@,
            AnalyticsEvent::IntegrationDisconnected { .. } => "integration_disconnected"@,
            AnalyticsEvent::IntegrationUsed { .. } => "integration_used"@,
            AnalyticsEvent::IntegrationError { .. } => "integration_error"@,
            AnalyticsEvent::OAuthFlowStarted { .. } => "oauth_flow_started"@,
            AnalyticsEvent::OAuthFlowCompleted { .. } => "oauth_flow_completed"@,
            AnalyticsEvent::WebhookReceived { .. } => "webhook_received"@,
            AnalyticsEvent::WebhookProcessed { .. } => "webhook_processed"@,
            AnalyticsEvent::CocoonRegistered { .. } => "cocoon_registered"@,
            AnalyticsEvent::CocoonConnected { .. } => "cocoon_connected"@,
            AnalyticsEvent::CocoonDisconnected { .. } => "cocoon_disconnected"@,
            AnalyticsEvent::CocoonClaimed { .. } => "cocoon_claimed"@,
            AnalyticsEvent::CocoonSetupTokenCreated { .. } => "cocoon_setup_token_created"@,
            AnalyticsEvent::CocoonSetupTokenUsed { .. } => "cocoon_setup_token_used"@,
            AnalyticsEvent::ProjectCreated { .. } => "project_created"@,
            AnalyticsEvent::ProjectUpdated { .. } => "project_updated"@,
            AnalyticsEvent::ProjectDeleted { .. } => "project_deleted"@,
            AnalyticsEvent::ApiRequest { .. } => "api_request"@,
            AnalyticsEvent::DatabaseQuery { .. } => "database_query"@,
            AnalyticsEvent::ApplicationError { .. } => "application_error"@,
        }
    }

    /// Get the event type as a string.
    pub fn event_type(&self) -> (r: &'static str)
        ensures
            r@ == self.type_tag(),
    {
        match self {
            AnalyticsEvent::AuthLoginAttempt { .. } => "auth_login_attempt",
            AnalyticsEvent::AuthCodeVerified { .. } => "auth_code_verified",
            AnalyticsEvent::AuthTokenRefresh { .. } => "auth_token_refresh",
            AnalyticsEvent::AuthSessionValidated { .. } => "auth_session_validated",
            AnalyticsEvent::TaskCreated { .. } => "task_created",
            AnalyticsEvent::TaskStarted { .. } => "task_started",
            AnalyticsEvent::TaskCompleted { .. } => "task_completed",
            AnalyticsEvent::TaskFailed { .. } => "task_failed",
            AnalyticsEvent::TaskCancelled { .. } => "task_cancelled",
            AnalyticsEvent::IntegrationConnected { .. } => "integration_connected",
            AnalyticsEvent::IntegrationDisconnected { .. } => "integration_disconnected",
            AnalyticsEvent::IntegrationUsed { .. } => "integration_used",
            AnalyticsEvent::IntegrationError { .. } => "integration_error",
            AnalyticsEvent::OAuthFlowStarted { .. } => "oauth_flow_started",
            AnalyticsEvent::OAuthFlowCompleted { .. } => "oauth_flow_completed",
            AnalyticsEvent::WebhookReceived { .. } => "webhook_received",
            AnalyticsEvent::WebhookProcessed { .. } => "webhook_processed",
            AnalyticsEvent::CocoonRegistered { .. } => "cocoon_registered",
            AnalyticsEvent::CocoonConnected { .. } => "cocoon_connected",
            AnalyticsEvent::CocoonDisconnected { .. } => "cocoon_disconnected",
            AnalyticsEvent::CocoonClaimed { .. } => "cocoon_claimed",
            AnalyticsEvent::CocoonSetupTokenCreated { .. } => "cocoon_setup_token_created",
            AnalyticsEvent::CocoonSetupTokenUsed { .. } => "cocoon_setup_token_used",
            AnalyticsEvent::ProjectCreated { .. } => "project_created",
            AnalyticsEvent::ProjectUpdated { .. } => "project_updated",
            AnalyticsEvent::ProjectDeleted { .. } => "project_deleted",
            AnalyticsEvent::ApiRequest { .. } => "api_request",
            AnalyticsEvent::DatabaseQuery { .. } => "database_query",
            AnalyticsEvent::ApplicationError { .. } => "application_error",
        }
    }

    /// The service named by this event, where one is named.
    pub open spec fn service_tag(&self) -> Option<Seq<char>> {
        match self {
            AnalyticsEvent::ApiRequest { service, .. } => Some(service@),
            AnalyticsEvent::DatabaseQuery { service, .. } => Some(service@),
            AnalyticsEvent::ApplicationError { service, .. } => Some(service@),
            _ => None,
        }
    }

    /// Get the service that generated this event.
    pub fn service(&self) -> (r: Option<&str>)
        ensures
            match r {
                Some(s) => self.service_tag() == Some(s@),
                None => self.service_tag() is None,
            },
    {
        match self {
            AnalyticsEvent::ApiRequest { service, .. } => Some(service.as_str()),
            AnalyticsEvent::DatabaseQuery { service, .. } => Some(service.as_str()),
            AnalyticsEvent::ApplicationError { service, .. } => Some(service.as_str()),
            _ => None,
        }
    }

    /// The user this event belongs to, where the variant carries one.
    pub open spec fn owning_user(&self) -> Option<u128> {
        match self {
            AnalyticsEvent::AuthLoginAttempt { user_id, .. } => *user_id,
            AnalyticsEvent::AuthCodeVerified { user_id, .. } => Some(*user_id),
            AnalyticsEvent::AuthTokenRefresh { user_id, .. } => Some(*user_id),
            AnalyticsEvent::AuthSessionValidated { user_id, .. } => Some(*user_id),
            AnalyticsEvent::TaskCreated { user_id, .. } => Some(*user_id),
            AnalyticsEvent::TaskStarted { user_id, .. } => Some(*user_id),
            AnalyticsEvent::TaskCompleted { user_id, .. } => Some(*user_id),
            AnalyticsEvent::TaskFailed { user_id, .. } => Some(*user_id),
            AnalyticsEvent::TaskCancelled { user_id, .. } => Some(*user_id),
            AnalyticsEvent::IntegrationConnected { user_id, .. } => Some(*user_id),
            AnalyticsEvent::IntegrationDisconnected { user_id, .. } => Some(*user_id),
            AnalyticsEvent::IntegrationUsed { user_id, .. } => Some(*user_id),
            AnalyticsEvent::IntegrationError { user_id, .. } => Some(*user_id),
            AnalyticsEvent::OAuthFlowStarted { user_id, .. } => Some(*user_id),
            AnalyticsEvent::OAuthFlowCompleted { user_id, .. } => Some(*user_id),
            AnalyticsEvent::CocoonRegistered { user_id, .. } => Some(*user_id),
            AnalyticsEvent::CocoonConnected { user_id, .. } => *user_id,
            AnalyticsEvent::CocoonDisconnected { user_id, .. } => *user_id,
            AnalyticsEvent::CocoonClaimed { user_id, .. } => Some(*user_id),
            AnalyticsEvent::CocoonSetupTokenCreated { user_id, .. } => Some(*user_id),
            AnalyticsEvent::CocoonSetupTokenUsed { user_id, .. } => Some(*user_id),
            AnalyticsEvent::ProjectCreated { user_id, .. } => Some(*user_id),
            AnalyticsEvent::ProjectUpdated { user_id, .. } => Some(*user_id),
            AnalyticsEvent::ProjectDeleted { user_id, .. } => Some(*user_id),
            AnalyticsEvent::ApiRequest { user_id, .. } => *user_id,
            AnalyticsEvent::ApplicationError { user_id, .. } => *user_id,
            _ => None,
        }
    }

    /// Get the user ID if available.
    pub fn user_id(&self) -> (r: Option<u128>)
        ensures
            r == self.owning_user(),
    {
        match self {
            AnalyticsEvent::AuthLoginAttempt { user_id, .. } => *user_id,
            AnalyticsEvent::AuthCodeVerified { user_id, .. } => Some(*user_id),
            AnalyticsEvent::AuthTokenRefresh { user_id, .. } => Some(*user_id),
            AnalyticsEvent::AuthSessionValidated { user_id, .. } => Some(*user_id),
            AnalyticsEvent::TaskCreated { user_id, .. } => Some(*user_id),
            AnalyticsEvent::TaskStarted { user_id, .. } => Some(*user_id),
            AnalyticsEvent::TaskCompleted { user_id, .. } => Some(*user_id),
            AnalyticsEvent::TaskFailed { user_id, .. } => Some(*user_id),
            AnalyticsEvent::TaskCancelled { user_id, .. } => Some(*user_id),
            AnalyticsEvent::IntegrationConnected { user_id, .. } => Some(*user_id),
            AnalyticsEvent::IntegrationDisconnected { user_id, .. } => Some(*user_id),
            AnalyticsEvent::IntegrationUsed { user_id, .. } => Some(*user_id),
            AnalyticsEvent::IntegrationError { user_id, .. } => Some(*user_id),
            AnalyticsEvent::OAuthFlowStarted { user_id, .. } => Some(*user_id),
            AnalyticsEvent::OAuthFlowCompleted { user_id, .. } => Some(*user_id),
            AnalyticsEvent::CocoonRegistered { user_id, .. } => Some(*user_id),
            AnalyticsEvent::CocoonConnected { user_id, .. } => *user_id,
            AnalyticsEvent::CocoonDisconnected { user_id, .. } => *user_id,
            AnalyticsEvent::CocoonClaimed { user_id, .. } => Some(*user_id),
            AnalyticsEvent::CocoonSetupTokenCreated { user_id, .. } => Some(*user_id),
            AnalyticsEvent::CocoonSetupTokenUsed { user_id, .. } => Some(*user_id),
            AnalyticsEvent::ProjectCreated { user_id, .. } => Some(*user_id),
            AnalyticsEvent::ProjectUpdated { user_id, .. } => Some(*user_id),
            AnalyticsEvent::ProjectDeleted { user_id, .. } => Some(*user_id),
            AnalyticsEvent::ApiRequest { user_id, .. } => *user_id,
            AnalyticsEvent::ApplicationError { user_id, .. } => *user_id,
            _ => None,
        }
    }
}

/// Host and environment labels read from process-wide configuration at the
/// moment of each enrichment call, injected by the caller so that the
/// enricher itself stays pure and tests can substitute fixed values.
#[derive(Debug, Clone)]
pub struct Tags {
    pub hostname: Option<String>,
    pub environment: Option<String>,
}

/// Enriched event with metadata.
///
/// `timestamp_ms` is the capture instant in milliseconds since the Unix
/// epoch: it is set exactly once, when the envelope is created, and never
/// recomputed afterwards.
#[derive(Debug, Clone)]
pub struct EnrichedEvent {
    pub timestamp_ms: i64,
    pub event: AnalyticsEvent,
    pub hostname: Option<String>,
    pub environment: Option<String>,
}

impl EnrichedEvent {
    /// Wraps one event into an envelope, stamping the capture time now and
    /// the tags as handed in.
    pub fn new(event: AnalyticsEvent, tags: Tags) -> (r: Self)
        ensures
            r.event == event,
            r.hostname == tags.hostname,
            r.environment == tags.environment,
            0 <= r.timestamp_ms,
    {
        EnrichedEvent {
            timestamp_ms: now_unix_millis(),
            event,
            hostname: tags.hostname,
            environment: tags.environment,
        }
    }
}

/// Relies on std's `SystemTime::now`: the wall clock, read as milliseconds
/// since the Unix epoch. The two abnormal arms are mapped to documented
/// values rather than panicking — a clock before the epoch reads as zero,
/// and one too far ahead to fit saturates — so every return is
/// non-negative; beyond that the value depends on the clock and nothing
/// more is promised.
#[verifier::external_body]
fn now_unix_millis() -> (r: i64)
    ensures
        0 <= r,
{
    match std::time::SystemTime::now().duration_since(std::time::UNIX_EPOCH) {
        Ok(elapsed) => i64::try_from(elapsed.as_millis()).unwrap_or(i64::MAX),
        Err(_) => 0,
    }
}

} // verus!
