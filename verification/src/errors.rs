//! The error hierarchy: business-rule violations (`DomainError`), technical
//! failures (`InfrastructureError`), use-case failures (`ApplicationError`)
//! and the HTTP-facing errors (`ApiError`), with the text each one displays
//! and the HTTP answer each one is given.

use vstd::prelude::*;
use crate::text::{int_text, push_i64_text};

verus! {

/// Business-rule violations.
#[derive(Debug, Clone)]
pub enum DomainError {
    InsufficientBalance { required: i64, available: i64 },
    InvalidPhoneNumber(String),
    InvalidTicketNumbers(String),
    InvalidAmount(String),
    UserNotFound,
    TicketNotFound,
    DrawNotFound,
    DrawClosed,
    UserAlreadyExists,
}

/// Technical failures. The database variant holds the text of the driver's
/// error.
#[derive(Debug, Clone)]
pub enum InfrastructureError {
    Database(String),
    Cache(String),
    Blockchain(String),
    Connection(String),
    Timeout(String),
}

/// Use-case failures.
#[derive(Debug, Clone)]
pub enum ApplicationError {
    Domain(DomainError),
    Infrastructure(InfrastructureError),
    AuthenticationFailed(String),
    InvalidToken,
    Unauthorized,
    ValidationFailed(String),
}

/// Errors of the HTTP API.
#[derive(Debug, Clone)]
pub enum ApiError {
    Application(ApplicationError),
    BadRequest(String),
    NotFound(String),
    InternalServerError,
}

/// The JSON body of an error answer.
#[derive(Debug, Clone)]
pub struct ApiErrorResponse {
    pub error: String,
    pub code: String,
    pub details: Option<String>,
}

/// The text that a `DomainError` displays.
pub open spec fn domain_error_text(e: DomainError) -> Seq<char> {
    match e {
        DomainError::InsufficientBalance { required, available } => "Solde insuffisant: requis "@
            + int_text(required as int) + " FCFA, disponible "@ + int_text(available as int)
            + " FCFA"@,
        DomainError::InvalidPhoneNumber(s) => "Numéro de téléphone invalide: "@ + s@,
        DomainError::InvalidTicketNumbers(s) => "Numéros de ticket invalides: "@ + s@,
        DomainError::InvalidAmount(s) => "Montant invalide: "@ + s@,
        DomainError::UserNotFound => "Utilisateur non trouvé"@,
        DomainError::TicketNotFound => "Ticket non trouvé"@,
        DomainError::DrawNotFound => "Tirage non trouvé"@,
        DomainError::DrawClosed => "Le tirage est fermé aux participations"@,
        DomainError::UserAlreadyExists => "Utilisateur déjà existant avec ce numéro"@,
    }
}

/// The text that an `InfrastructureError` displays.
pub open spec fn infrastructure_error_text(e: InfrastructureError) -> Seq<char> {
    match e {
        InfrastructureError::Database(s) => "Erreur base de données: "@ + s@,
        InfrastructureError::Cache(s) => "Erreur cache Redis: "@ + s@,
        InfrastructureError::Blockchain(s) => "Erreur blockchain: "@ + s@,
        InfrastructureError::Connection(s) => "Erreur de connexion: "@ + s@,
        InfrastructureError::Timeout(s) => "Timeout: "@ + s@,
    }
}

/// The text that an `ApplicationError` displays; the domain and
/// infrastructure variants display the error they wrap.
pub open spec fn application_error_text(e: ApplicationError) -> Seq<char> {
    match e {
        ApplicationError::Domain(d) => domain_error_text(d),
        ApplicationError::Infrastructure(i) => infrastructure_error_text(i),
        ApplicationError::AuthenticationFailed(s) => "Authentification échouée: "@ + s@,
        ApplicationError::InvalidToken => "Token invalide ou expiré"@,
        ApplicationError::Unauthorized => "Accès non autorisé"@,
        ApplicationError::ValidationFailed(s) => "Validation échouée: "@ + s@,
    }
}

/// The text that an `ApiError` displays.
pub open spec fn api_error_text(e: ApiError) -> Seq<char> {
    match e {
        ApiError::Application(a) => application_error_text(a),
        ApiError::BadRequest(s) => "Requête invalide: "@ + s@,
        ApiError::NotFound(s) => "Ressource non trouvée: "@ + s@,
        ApiError::InternalServerError => "Erreur interne du serveur"@,
    }
}

/// The HTTP status of the answer to an `ApiError`.
pub open spec fn api_error_status(e: ApiError) -> u16 {
    match e {
        ApiError::Application(ApplicationError::Domain(d)) => match d {
            DomainError::UserNotFound | DomainError::TicketNotFound | DomainError::DrawNotFound => 404,
            DomainError::UserAlreadyExists => 409,
            _ => 400,
        },
        ApiError::Application(ApplicationError::AuthenticationFailed(_)) => 401,
        ApiError::Application(ApplicationError::InvalidToken) => 401,
        ApiError::Application(ApplicationError::Unauthorized) => 403,
        ApiError::Application(ApplicationError::ValidationFailed(_)) => 400,
        ApiError::Application(ApplicationError::Infrastructure(_)) => 500,
        ApiError::BadRequest(_) => 400,
        ApiError::NotFound(_) => 404,
        ApiError::InternalServerError => 500,
    }
}

/// The machine-readable code of the answer to an `ApiError`.
pub open spec fn api_error_code(e: ApiError) -> Seq<char> {
    match e {
        ApiError::Application(ApplicationError::Domain(d)) => match d {
            DomainError::InsufficientBalance { .. } => "INSUFFICIENT_BALANCE"@,
            DomainError::InvalidPhoneNumber(_) => "INVALID_PHONE"@,
            DomainError::InvalidTicketNumbers(_) => "INVALID_NUMBERS"@,
            DomainError::UserNotFound | DomainError::TicketNotFound | DomainError::DrawNotFound =>
                "NOT_FOUND"@,
            DomainError::UserAlreadyExists => "USER_EXISTS"@,
            DomainError::DrawClosed => "DRAW_CLOSED"@,
            DomainError::InvalidAmount(_) => "DOMAIN_ERROR"@,
        },
        ApiError::Application(ApplicationError::AuthenticationFailed(_)) => "AUTH_FAILED"@,
        ApiError::Application(ApplicationError::InvalidToken) => "AUTH_FAILED"@,
        ApiError::Application(ApplicationError::Unauthorized) => "FORBIDDEN"@,
        ApiError::Application(ApplicationError::ValidationFailed(_)) => "VALIDATION_ERROR"@,
        ApiError::Application(ApplicationError::Infrastructure(_)) => "INTERNAL_ERROR"@,
        ApiError::BadRequest(_) => "BAD_REQUEST"@,
        ApiError::NotFound(_) => "NOT_FOUND"@,
        ApiError::InternalServerError => "INTERNAL_ERROR"@,
    }
}

/// The human-readable message of the answer to an `ApiError`: the error's own
/// text, except that technical failures are answered with a generic message
/// and bad-request / not-found errors with their bare message.
pub open spec fn api_error_message(e: ApiError) -> Seq<char> {
    match e {
        ApiError::Application(ApplicationError::Infrastructure(_)) =>
            "Une erreur technique s'est produite"@,
        ApiError::Application(a) => application_error_text(a),
        ApiError::BadRequest(s) => s@,
        ApiError::NotFound(s) => s@,
        ApiError::InternalServerError => "Une erreur interne s'est produite"@,
    }
}

/// A new string holding the literal `s`.
pub fn string_of(s: &str) -> (r: String)
    ensures
        r@ == s@,
{
    String::from_str(s)
}

/// `prefix` followed by `s`.
fn prefixed(prefix: &str, s: &String) -> (r: String)
    ensures
        r@ == prefix@ + s@,
{
    let mut r = String::from_str(prefix);
    r.append(s.as_str());
    r
}

impl DomainError {
    /// The text this error displays.
    pub fn to_string(&self) -> (s: String)
        ensures
            s@ == domain_error_text(*self),
    {
        match self {
            DomainError::InsufficientBalance { required, available } => {
                let mut s = String::from_str("Solde insuffisant: requis ");
                push_i64_text(&mut s, *required);
                s.append(" FCFA, disponible ");
                push_i64_text(&mut s, *available);
                s.append(" FCFA");
                s
            },
            DomainError::InvalidPhoneNumber(m) => prefixed("Numéro de téléphone invalide: ", m),
            DomainError::InvalidTicketNumbers(m) => prefixed("Numéros de ticket invalides: ", m),
            DomainError::InvalidAmount(m) => prefixed("Montant invalide: ", m),
            DomainError::UserNotFound => string_of("Utilisateur non trouvé"),
            DomainError::TicketNotFound => string_of("Ticket non trouvé"),
            DomainError::DrawNotFound => string_of("Tirage non trouvé"),
            DomainError::DrawClosed => string_of("Le tirage est fermé aux participations"),
            DomainError::UserAlreadyExists => string_of("Utilisateur déjà existant avec ce numéro"),
        }
    }
}

impl InfrastructureError {
    /// The text this error displays.
    pub fn to_string(&self) -> (s: String)
        ensures
            s@ == infrastructure_error_text(*self),
    {
        match self {
            InfrastructureError::Database(m) => prefixed("Erreur base de données: ", m),
            InfrastructureError::Cache(m) => prefixed("Erreur cache Redis: ", m),
            InfrastructureError::Blockchain(m) => prefixed("Erreur blockchain: ", m),
            InfrastructureError::Connection(m) => prefixed("Erreur de connexion: ", m),
            InfrastructureError::Timeout(m) => prefixed("Timeout: ", m),
        }
    }
}

impl ApplicationError {
    /// The text this error displays.
    pub fn to_string(&self) -> (s: String)
        ensures
            s@ == application_error_text(*self),
    {
        match self {
            ApplicationError::Domain(d) => d.to_string(),
            ApplicationError::Infrastructure(i) => i.to_string(),
            ApplicationError::AuthenticationFailed(m) => prefixed("Authentification échouée: ", m),
            ApplicationError::InvalidToken => string_of("Token invalide ou expiré"),
            ApplicationError::Unauthorized => string_of("Accès non autorisé"),
            ApplicationError::ValidationFailed(m) => prefixed("Validation échouée: ", m),
        }
    }
}

impl ApiError {
    /// The text this error displays.
    pub fn to_string(&self) -> (s: String)
        ensures
            s@ == api_error_text(*self),
    {
        match self {
            ApiError::Application(a) => a.to_string(),
            ApiError::BadRequest(m) => prefixed("Requête invalide: ", m),
            ApiError::NotFound(m) => prefixed("Ressource non trouvée: ", m),
            ApiError::InternalServerError => string_of("Erreur interne du serveur"),
        }
    }

    /// The HTTP status and JSON body that answer this error. Technical
    /// failures are not disclosed: their message is generic.
    pub fn error_response(&self) -> (r: (u16, ApiErrorResponse))
        ensures
            r.0 == api_error_status(*self),
            r.1.code@ == api_error_code(*self),
            r.1.error@ == api_error_message(*self),
            r.1.details is None,
    {
        let (status, code, error): (u16, &str, String) = match self {
            ApiError::Application(app_err) => match app_err {
                ApplicationError::Domain(domain_err) => match domain_err {
                    DomainError::InsufficientBalance { .. } => (
                        400,
                        "INSUFFICIENT_BALANCE",
                        domain_err.to_string(),
                    ),
                    DomainError::InvalidPhoneNumber(_) => (400, "INVALID_PHONE", domain_err.to_string()),
                    DomainError::InvalidTicketNumbers(_) => (
                        400,
                        "INVALID_NUMBERS",
                        domain_err.to_string(),
                    ),
                    DomainError::UserNotFound
                    | DomainError::TicketNotFound
                    | DomainError::DrawNotFound => (404, "NOT_FOUND", domain_err.to_string()),
                    DomainError::UserAlreadyExists => (409, "USER_EXISTS", domain_err.to_string()),
                    DomainError::DrawClosed => (400, "DRAW_CLOSED", domain_err.to_string()),
                    DomainError::InvalidAmount(_) => (400, "DOMAIN_ERROR", domain_err.to_string()),
                },
                ApplicationError::AuthenticationFailed(_) | ApplicationError::InvalidToken => (
                    401,
                    "AUTH_FAILED",
                    app_err.to_string(),
                ),
                ApplicationError::Unauthorized => (403, "FORBIDDEN", app_err.to_string()),
                ApplicationError::ValidationFailed(_) => (
                    400,
                    "VALIDATION_ERROR",
                    app_err.to_string(),
                ),
                ApplicationError::Infrastructure(_) => (
                    500,
                    "INTERNAL_ERROR",
                    string_of("Une erreur technique s'est produite"),
                ),
            },
            ApiError::BadRequest(msg) => (400, "BAD_REQUEST", msg.clone()),
            ApiError::NotFound(msg) => (404, "NOT_FOUND", msg.clone()),
            ApiError::InternalServerError => (
                500,
                "INTERNAL_ERROR",
                string_of("Une erreur interne s'est produite"),
            ),
        };
        (status, ApiErrorResponse { error, code: string_of(code), details: None })
    }
}

} // verus!
