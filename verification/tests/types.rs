use r_webservice::types::method::Method;
use r_webservice::types::data_format::DataFormat;
use r_webservice::types::content_type::ContentType;
use r_webservice::types::engine::Engine;
use r_webservice::types::error::{ServiceError, ServerError};
use r_webservice::types::flags::select_flags;

fn bits(ms: &[Method]) -> Vec<i64> {
    ms.iter().map(|m| m.0).collect()
}

#[test]
fn method_from_flag_keeps_flag_order() {
    let ms = Method::from_flag(256 | 4 | 2);
    assert_eq!(bits(&ms), vec![2, 4, 256]);
}

#[test]
fn method_from_flag_of_zero_is_empty() {
    assert!(Method::from_flag(0).is_empty());
}

#[test]
fn method_from_flag_of_all_bits() {
    let ms = Method::from_flag(-1);
    assert_eq!(bits(&ms), vec![1, 2, 4, 8, 16, 32, 64, 128, 256]);
}

#[test]
fn method_names_round_trip() {
    let all = [
        Method::options(), Method::get(), Method::post(), Method::put(), Method::delete(),
        Method::head(), Method::trace(), Method::connect(), Method::patch(),
    ];
    let names = ["OPTIONS", "GET", "POST", "PUT", "DELETE", "HEAD", "TRACE", "CONNECT", "PATCH"];
    for (m, n) in all.iter().zip(names.iter()) {
        assert_eq!(m.http_name(), *n);
        assert_eq!(Method::from_http_name(n), *m);
    }
}

#[test]
fn unknown_method_name_stands_for_get() {
    assert_eq!(Method::from_http_name("BREW"), Method::get());
    assert_eq!(Method::from_http_name("get"), Method::get());
    assert_eq!(Method(3).http_name(), "GET");
}

#[test]
fn select_flags_keeps_candidates_in_order() {
    assert_eq!(select_flags(5, &[4, 2, 1]), vec![4, 1]);
}

#[test]
fn data_format_from_flag_and_membership() {
    let fs = DataFormat::from_flag(DataFormat::DATA_FORMAT_STATIC | DataFormat::DATA_FORMAT_JSON);
    assert_eq!(fs, vec![DataFormat::static_file(), DataFormat::json()]);
    assert!(DataFormat::static_file().is_in(&fs));
    assert!(!DataFormat::html().is_in(&fs));
    assert!(!DataFormat::text().is_in(&fs));
}

#[test]
fn content_type_from_flag() {
    let cs = ContentType::from_flag(6);
    assert_eq!(cs, vec![ContentType::url(), ContentType::form()]);
}

#[test]
fn content_type_mime_texts() {
    assert_eq!(ContentType::json().mime_text(), Ok("application/json".to_string()));
    assert_eq!(ContentType::url().mime_text(), Ok("application/x-www-form-urlencoded".to_string()));
    assert_eq!(ContentType::form().mime_text(), Ok("multipart/form-data".to_string()));
    assert_eq!(ContentType(8).mime_text(), Err(()));
}

#[test]
fn engine_keeps_its_number() {
    let e = Engine::from_number(Engine::ENGINE_MODULE_PAGE);
    assert_eq!(e.number(), 4);
    assert_eq!(Engine::from_number(Engine::ENGINE_TYPE_V8).number(), -1);
}

#[test]
fn service_error_status_codes() {
    assert_eq!(ServiceError::HTTPRequestBadRequest.status_code(), 400);
    assert_eq!(ServiceError::HTTPRequestUnauthorized.status_code(), 401);
    assert_eq!(ServiceError::HTTPRequestForbidden.status_code(), 403);
    assert_eq!(ServiceError::HTTPRequestNotFound.status_code(), 404);
    assert_eq!(ServiceError::HTTPRequestPayloadTooLarge.status_code(), 413);
    assert_eq!(ServiceError::HTTPRequestInternalServerError(ServerError::DBAccessError).status_code(), 500);
}

#[test]
fn error_messages() {
    assert_eq!(ServiceError::HTTPRequestPayloadTooLarge.message(), "Payload Too Large");
    assert_eq!(ServiceError::HTTPRequestInternalServerError(ServerError::SerdeParseError).message(), "Internal Server Error");
    assert_eq!(ServerError::TemplateRoutingError.message(), "Template Routing Error");
    assert_eq!(ServerError::SessionAccessError.message(), "Session Access Error");
}

#[test]
fn server_error_becomes_internal_server_error() {
    assert_eq!(
        ServiceError::from(ServerError::TemplateTypeError),
        ServiceError::HTTPRequestInternalServerError(ServerError::TemplateTypeError)
    );
}

#[test]
fn json_error_becomes_serde_parse_error() {
    let e = serde_json::from_str::<i32>("not json").unwrap_err();
    assert_eq!(
        ServiceError::from(e),
        ServiceError::HTTPRequestInternalServerError(ServerError::SerdeParseError)
    );
}

#[test]
fn method_flags_combine() {
    let a = 2 | 4 | 64;
    let b = 4 | 8 | 1;
    let either: std::collections::HashSet<i64> = bits(&Method::from_flag(a | b)).into_iter().collect();
    let union: std::collections::HashSet<i64> = bits(&Method::from_flag(a)).into_iter().chain(bits(&Method::from_flag(b))).collect();
    assert_eq!(either, union);
    assert_eq!(bits(&Method::from_flag(a & b)), vec![4]);
    assert_eq!(Method::from_flag(-1 & !0x1FF), vec![]);
    assert_eq!(Method::from_flag(a | 0x400), Method::from_flag(a));
}
