use ivoirechain::errors::{ApiError, ApplicationError, DomainError, InfrastructureError};

fn answer(e: ApiError) -> (u16, String, String) {
    let (status, body) = e.error_response();
    assert!(body.details.is_none());
    (status, body.code, body.error)
}

#[test]
fn domain_errors_display() {
    let e = DomainError::InsufficientBalance { required: 500, available: -20 };
    assert_eq!(e.to_string(), "Solde insuffisant: requis 500 FCFA, disponible -20 FCFA");
    assert_eq!(
        DomainError::InvalidPhoneNumber("abc".to_string()).to_string(),
        "Numéro de téléphone invalide: abc"
    );
    assert_eq!(DomainError::DrawClosed.to_string(), "Le tirage est fermé aux participations");
}

#[test]
fn api_answers() {
    let d = |e: DomainError| ApiError::Application(ApplicationError::Domain(e));
    assert_eq!(
        answer(d(DomainError::InsufficientBalance { required: 1, available: 0 })),
        (
            400,
            "INSUFFICIENT_BALANCE".to_string(),
            "Solde insuffisant: requis 1 FCFA, disponible 0 FCFA".to_string()
        )
    );
    assert_eq!(answer(d(DomainError::TicketNotFound)).0, 404);
    assert_eq!(answer(d(DomainError::TicketNotFound)).1, "NOT_FOUND");
    assert_eq!(answer(d(DomainError::UserAlreadyExists)).0, 409);
    assert_eq!(answer(d(DomainError::DrawClosed)).1, "DRAW_CLOSED");
    assert_eq!(
        answer(d(DomainError::InvalidAmount("x".to_string()))),
        (400, "DOMAIN_ERROR".to_string(), "Montant invalide: x".to_string())
    );
    assert_eq!(
        answer(ApiError::Application(ApplicationError::InvalidToken)),
        (401, "AUTH_FAILED".to_string(), "Token invalide ou expiré".to_string())
    );
    assert_eq!(answer(ApiError::Application(ApplicationError::Unauthorized)).0, 403);
    assert_eq!(
        answer(ApiError::Application(ApplicationError::Infrastructure(
            InfrastructureError::Database("secret".to_string())
        ))),
        (500, "INTERNAL_ERROR".to_string(), "Une erreur technique s'est produite".to_string())
    );
    assert_eq!(
        answer(ApiError::BadRequest("mauvais".to_string())),
        (400, "BAD_REQUEST".to_string(), "mauvais".to_string())
    );
    assert_eq!(
        answer(ApiError::InternalServerError),
        (500, "INTERNAL_ERROR".to_string(), "Une erreur interne s'est produite".to_string())
    );
}

#[test]
fn error_texts_wrap() {
    let e = ApiError::Application(ApplicationError::Infrastructure(InfrastructureError::Timeout(
        "5s".to_string(),
    )));
    assert_eq!(e.to_string(), "Timeout: 5s");
    assert_eq!(ApiError::NotFound("x".to_string()).to_string(), "Ressource non trouvée: x");
    assert_eq!(
        ApplicationError::ValidationFailed("v".to_string()).to_string(),
        "Validation échouée: v"
    );
}
