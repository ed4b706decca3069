use ticket_service::ctx::Ctx;
use ticket_service::error::{ClientError, Error, ErrorData};
use ticket_service::log::log_request;
use ticket_service::web::mw_res_map::{main_response_mapper, map_response, MappedResponse};

const REQ_UUID: &str = "6f2c1a9e-3b4d-4c5e-8f70-123456789abc";

fn is_hyphenated(text: &str) -> bool {
    let chars: Vec<char> = text.chars().collect();
    chars.len() == 36
        && chars.iter().enumerate().all(|(i, c)| {
            if i == 8 || i == 13 || i == 18 || i == 23 {
                *c == '-'
            } else {
                c.is_ascii_digit() || ('a'..='f').contains(c)
            }
        })
}

fn mapped_with(res: Result<&'static str, Error>, ctx: Option<Ctx>) -> MappedResponse<&'static str> {
    map_response(
        REQ_UUID.to_string(),
        "1700000000123".to_string(),
        ctx,
        "/api/tickets/999".to_string(),
        "DELETE".to_string(),
        res,
    )
}

#[test]
fn log_line_of_a_request_that_went_well() {
    let line = log_request(
        REQ_UUID.to_string(),
        "1700000000123".to_string(),
        "GET".to_string(),
        "/api/tickets".to_string(),
        Some(Ctx::new(1)),
        None,
        None,
    );
    assert_eq!(line.uuid, REQ_UUID);
    assert_eq!(line.timestamp, "1700000000123");
    assert_eq!(line.req_method, "GET");
    assert_eq!(line.req_path, "/api/tickets");
    assert_eq!(line.user_id, Some(1));
    assert_eq!(line.client_error_type, None);
    assert_eq!(line.error_type, None);
    assert_eq!(line.error_data, None);
}

#[test]
fn log_line_of_a_request_that_failed() {
    let e = Error::TicketDeleteFailIdNotFound { id: 999 };
    let line = log_request(
        REQ_UUID.to_string(),
        "5".to_string(),
        "DELETE".to_string(),
        "/api/tickets/999".to_string(),
        Some(Ctx::new(44)),
        Some(&e),
        Some(ClientError::INVALID_PARAMS),
    );
    assert_eq!(line.uuid, REQ_UUID);
    assert_eq!(line.timestamp, "5");
    assert_eq!(line.req_method, "DELETE");
    assert_eq!(line.req_path, "/api/tickets/999");
    assert_eq!(line.user_id, Some(44));
    assert_eq!(line.client_error_type, Some("INVALID_PARAMS".to_string()));
    assert_eq!(line.error_type, Some("TicketDeleteFailIdNotFound".to_string()));
    assert_eq!(line.error_data, Some(ErrorData { id: 999 }));
}

#[test]
fn log_line_of_an_anonymous_request() {
    let e = Error::AuthFailNoAuthTokenCookie;
    let line = log_request(
        "id".to_string(),
        "".to_string(),
        "POST".to_string(),
        "/api/tickets".to_string(),
        None,
        Some(&e),
        Some(ClientError::NO_AUTH),
    );
    assert_eq!(line.user_id, None);
    assert_eq!(line.client_error_type, Some("NO_AUTH".to_string()));
    assert_eq!(line.error_type, Some("AuthFailNoAuthTokenCookie".to_string()));
    assert_eq!(line.error_data, None);
}

#[test]
fn response_without_error_passes() {
    let out = mapped_with(Ok("what the handler answered"), Some(Ctx::new(1)));
    assert_eq!(out.response.unwrap(), "what the handler answered");
    assert_eq!(out.log_line.uuid, REQ_UUID);
    assert_eq!(out.log_line.timestamp, "1700000000123");
    assert_eq!(out.log_line.req_path, "/api/tickets/999");
    assert_eq!(out.log_line.req_method, "DELETE");
    assert_eq!(out.log_line.user_id, Some(1));
    assert_eq!(out.log_line.client_error_type, None);
    assert_eq!(out.log_line.error_type, None);
    assert_eq!(out.log_line.error_data, None);
}

#[test]
fn missing_ticket_is_mapped_to_invalid_params() {
    let e = Error::TicketDeleteFailIdNotFound { id: 999 };
    let out = mapped_with(Err(e), Some(Ctx::new(1)));
    let response = out.response.unwrap_err();
    assert_eq!(response.status, 400);
    assert_eq!(
        response.body,
        "{\"error\":{\"type\":\"INVALID_PARAMS\",\"req_uuid\":\"6f2c1a9e-3b4d-4c5e-8f70-123456789abc\"}}"
    );
    assert_eq!(out.log_line.client_error_type, Some("INVALID_PARAMS".to_string()));
    assert_eq!(out.log_line.error_type, Some("TicketDeleteFailIdNotFound".to_string()));
    assert_eq!(out.log_line.error_data, Some(ErrorData { id: 999 }));
    assert_eq!(out.log_line.user_id, Some(1));
}

#[test]
fn payload_of_an_error_stays_out_of_the_body() {
    let e = Error::TicketDeleteFailIdNotFound { id: 31337 };
    let out = mapped_with(Err(e), None);
    let body = out.response.unwrap_err().body;
    assert!(!body.contains("31337"));
    assert!(!body.contains("TicketDeleteFailIdNotFound"));
    assert_eq!(out.log_line.error_data, Some(ErrorData { id: 31337 }));
}

#[test]
fn auth_failures_are_mapped_to_no_auth() {
    let kinds = [
        (Error::AuthFailNoAuthTokenCookie, "AuthFailNoAuthTokenCookie"),
        (Error::AuthFailTokenWrongFormat, "AuthFailTokenWrongFormat"),
        (Error::AuthFailCtxNotInRequestExt, "AuthFailCtxNotInRequestExt"),
    ];
    for (e, name) in kinds {
        let out = mapped_with(Err(e), None);
        let response = out.response.unwrap_err();
        assert_eq!(response.status, 403);
        assert_eq!(
            response.body,
            "{\"error\":{\"type\":\"NO_AUTH\",\"req_uuid\":\"6f2c1a9e-3b4d-4c5e-8f70-123456789abc\"}}"
        );
        assert_eq!(out.log_line.client_error_type, Some("NO_AUTH".to_string()));
        assert_eq!(out.log_line.error_type, Some(name.to_string()));
        assert_eq!(out.log_line.error_data, None);
        assert_eq!(out.log_line.user_id, None);
    }
}

#[test]
fn error_body_is_json_of_the_agreed_shape() {
    let e = Error::LoginFail;
    let out = mapped_with(Err(e), None);
    let body = out.response.unwrap_err().body;
    let value: serde_json::Value = serde_json::from_str(&body).unwrap();
    assert_eq!(value.as_object().unwrap().len(), 1);
    let error = value["error"].as_object().unwrap();
    assert_eq!(error.len(), 2);
    assert_eq!(error["type"], serde_json::Value::String("LOGIN_FAIL".to_string()));
    assert_eq!(error["req_uuid"], serde_json::Value::String(REQ_UUID.to_string()));
}

#[test]
fn mapper_draws_a_hyphenated_identifier() {
    let e = Error::AuthFailTokenWrongFormat;
    let out = main_response_mapper::<()>(
        None,
        "/api/tickets".to_string(),
        "GET".to_string(),
        "1700000000999".to_string(),
        Err(e),
    );
    let uuid = out.log_line.uuid.clone();
    assert!(is_hyphenated(&uuid), "identifier {:?}", uuid);
    let response = out.response.unwrap_err();
    assert_eq!(response.status, 403);
    assert_eq!(
        response.body,
        format!("{{\"error\":{{\"type\":\"NO_AUTH\",\"req_uuid\":\"{}\"}}}}", uuid)
    );
    let value: serde_json::Value = serde_json::from_str(&response.body).unwrap();
    assert_eq!(value["error"]["req_uuid"], serde_json::Value::String(uuid));
    assert_eq!(out.log_line.timestamp, "1700000000999");
    assert_eq!(out.log_line.req_path, "/api/tickets");
    assert_eq!(out.log_line.req_method, "GET");
    assert_eq!(out.log_line.error_type, Some("AuthFailTokenWrongFormat".to_string()));
}

#[test]
fn mapper_draws_an_identifier_of_version_four() {
    let out =
        main_response_mapper(None, "/".to_string(), "GET".to_string(), "0".to_string(), Ok(200));
    let uuid: Vec<char> = out.log_line.uuid.chars().collect();
    assert_eq!(uuid.len(), 36);
    assert_eq!(uuid[14], '4');
    assert_eq!(out.response.unwrap(), 200);
}

#[test]
fn mapper_draws_a_fresh_identifier_each_time() {
    let one =
        main_response_mapper(None, "/".to_string(), "GET".to_string(), "0".to_string(), Ok(()));
    let two =
        main_response_mapper(None, "/".to_string(), "GET".to_string(), "0".to_string(), Ok(()));
    assert!(is_hyphenated(&one.log_line.uuid));
    assert!(is_hyphenated(&two.log_line.uuid));
    assert_ne!(one.log_line.uuid, two.log_line.uuid);
}

#[test]
fn mapper_logs_the_user_of_the_context() {
    let out = main_response_mapper(
        Some(Ctx::new(17)),
        "/api/tickets".to_string(),
        "POST".to_string(),
        "1".to_string(),
        Ok(vec![1u8, 2, 3]),
    );
    assert_eq!(out.response.unwrap(), vec![1u8, 2, 3]);
    assert_eq!(out.log_line.user_id, Some(17));
    assert_eq!(out.log_line.client_error_type, None);
}
