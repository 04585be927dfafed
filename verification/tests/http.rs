use synclan::db::DBManager;
use synclan::dtos::{
    default_current, default_page_size, validate_page_size, AccessCodeDto, Pagination,
};
use synclan::exception::HttpException;
use synclan::extractors::{
    Body, ErrorKind, Param, ParserRejection, PathRejection, Query, QueryRejection,
};
use synclan::guards::{AuthGuard, Claims};
use synclan::i18n::{
    get_supported_languages, get_system_locale, language_of_file_name, language_of_tag, pick_locale,
};
use synclan::routes::{upload_handler, verify_access_code, HttpResponse, Rendered};
use synclan::synclan::ISynclan;
use synclan::text::{contains_text, decimal_text, joined, owned};

#[test]
fn exception_status_and_phrase() {
    let table: Vec<(HttpException, u16, &str)> = vec![
        (HttpException::BadRequestException(None), 400, "Bad Request"),
        (HttpException::UnauthorizedException(None), 401, "Unauthorized"),
        (HttpException::ForbiddenException(None), 403, "Forbidden"),
        (HttpException::NotFoundException(None), 404, "Not Found"),
        (HttpException::MethodNotAllowedException(None), 405, "Method Not Allowed"),
        (HttpException::NotAcceptableException(None), 406, "Not Acceptable"),
        (HttpException::RequestTimeoutException(None), 408, "Request Timeout"),
        (HttpException::ConflictException(None), 409, "Conflict"),
        (HttpException::GoneException(None), 410, "Gone"),
        (HttpException::PreconditionFailedException(None), 412, "Precondition Failed"),
        (HttpException::PayloadTooLargeException(None), 413, "Payload Too Large"),
        (HttpException::UnsupportedMediaTypeException(None), 415, "Unsupported Media Type"),
        (HttpException::ImATeapotException(None), 418, "I'm a teapot"),
        (HttpException::UnprocessableEntityException(None), 422, "Unprocessable Entity"),
        (HttpException::InternalServerErrorException(None), 500, "Internal Server Error"),
        (HttpException::NotImplementedException(None), 501, "Not Implemented"),
        (HttpException::BadGatewayException(None), 502, "Bad Gateway"),
        (HttpException::ServiceUnavailableException(None), 503, "Service Unavailable"),
        (HttpException::GatewayTimeoutException(None), 504, "Gateway Timeout"),
        (HttpException::HttpVersionNotSupportedException(None), 505, "HTTP Version Not Supported"),
    ];
    assert_eq!(table.len(), 20);
    for (exception, status, phrase) in table {
        assert_eq!(exception.status_and_default_message(), (status, phrase));
        assert_eq!(exception.message(), phrase);
        let response = exception.into_response();
        assert_eq!(response.status_code, status);
        assert_eq!(response.message, phrase);
    }
}

#[test]
fn exception_prefers_its_own_message() {
    let e = HttpException::NotFoundException(Some("no such device".to_string()));
    assert_eq!(e.status_and_default_message(), (404, "Not Found"));
    assert_eq!(e.message(), "Not Found");
    let r = e.into_response();
    assert_eq!(r.status_code, 404);
    assert_eq!(r.message, "no such device");
    let r = HttpException::InternalServerErrorException(Some(String::new())).into_response();
    assert_eq!(r.status_code, 500);
    assert_eq!(r.message, "");
}

fn path(kind: ErrorKind) -> ParserRejection {
    ParserRejection::PathRejection(PathRejection::FailedToDeserializePathParams {
        kind,
        text: "in words".to_string(),
    })
}

fn answer(rejection: ParserRejection) -> (u16, String, Option<String>) {
    let r = rejection.into_response();
    (r.status_code, r.message, r.location)
}

#[test]
fn validation_errors_are_listed_on_one_line() {
    let r = ParserRejection::ValidationErrors {
        text: "current: Invalid current\npageSize: Invalid pageSize".to_string(),
    };
    assert_eq!(
        answer(r),
        (400, "Input validation error: [current: Invalid current, pageSize: Invalid pageSize]".to_string(), None)
    );
    let r = ParserRejection::ValidationErrors { text: "\n\n".to_string() };
    assert_eq!(answer(r), (400, "Input validation error: [, , ]".to_string(), None));
    let r = ParserRejection::ValidationErrors { text: String::new() };
    assert_eq!(answer(r), (400, "Input validation error: []".to_string(), None));
}

#[test]
fn json_and_query_rejections() {
    let r = ParserRejection::JsonRejection { text: "Expected request with `Content-Type: application/json`".to_string() };
    assert_eq!(answer(r), (400, "Expected request with `Content-Type: application/json`".to_string(), None));
    let r = ParserRejection::QueryRejection(QueryRejection::FailedToDeserializeQueryString { text: "bad query".to_string() });
    assert_eq!(answer(r), (400, "bad query".to_string(), None));
    let r = ParserRejection::QueryRejection(QueryRejection::Other { text: "odd".to_string() });
    assert_eq!(answer(r), (400, "Unhandled query rejection: odd".to_string(), None));
}

#[test]
fn path_rejections() {
    assert_eq!(answer(path(ErrorKind::WrongNumberOfParameters)), (400, "in words".to_string(), None));
    assert_eq!(
        answer(path(ErrorKind::ParseErrorAtKey { key: "id".to_string() })),
        (400, "in words".to_string(), Some("id".to_string()))
    );
    assert_eq!(
        answer(path(ErrorKind::ParseErrorAtIndex { index: 0 })),
        (400, "in words".to_string(), Some("0".to_string()))
    );
    assert_eq!(
        answer(path(ErrorKind::ParseErrorAtIndex { index: 1234567890 })),
        (400, "in words".to_string(), Some("1234567890".to_string()))
    );
    assert_eq!(answer(path(ErrorKind::ParseError)), (400, "in words".to_string(), None));
    assert_eq!(
        answer(path(ErrorKind::InvalidUtf8InPathParam { key: "name".to_string() })),
        (400, "in words".to_string(), Some("name".to_string()))
    );
    assert_eq!(answer(path(ErrorKind::UnsupportedType)), (500, "in words".to_string(), None));
    assert_eq!(
        answer(path(ErrorKind::DeserializeError {
            key: "id".to_string(),
            value: "x".to_string(),
            message: "not a number".to_string(),
        })),
        (500, "not a number".to_string(), Some("id".to_string()))
    );
    assert_eq!(answer(path(ErrorKind::Message("custom".to_string()))), (400, "custom".to_string(), None));
    assert_eq!(
        answer(path(ErrorKind::Other)),
        (400, "Unhandled deserialization error: in words".to_string(), None)
    );
    let r = ParserRejection::PathRejection(PathRejection::MissingPathParams { text: "missing".to_string() });
    assert_eq!(answer(r), (400, "missing".to_string(), None));
    let r = ParserRejection::PathRejection(PathRejection::Other { text: "odd".to_string() });
    assert_eq!(answer(r), (400, "Unhandled path rejection: odd".to_string(), None));
    let body = ParserRejection::into_json_response(418, "tea".to_string(), Some("pot".to_string()));
    assert_eq!((body.status_code, body.message, body.location), (418, "tea".to_string(), Some("pot".to_string())));
}

#[test]
fn extraction_checks_after_reading() {
    let ok: Result<u32, ParserRejection> = Ok(5);
    assert_eq!(Body::from_request(ok, None).unwrap().0, 5);
    let ok: Result<u32, ParserRejection> = Ok(5);
    assert!(matches!(
        Query::from_request_parts(ok, Some("current: Invalid current".to_string())),
        Err(ParserRejection::ValidationErrors { text }) if text == "current: Invalid current"
    ));
    let unread: Result<u32, ParserRejection> = Err(ParserRejection::JsonRejection { text: "bad".to_string() });
    assert!(matches!(
        Param::from_request_parts(unread, Some("never looked at".to_string())),
        Err(ParserRejection::JsonRejection { text }) if text == "bad"
    ));
    let ok: Result<&str, ParserRejection> = Ok("v");
    assert_eq!(Param::from_request_parts(ok, None).unwrap().0, "v");
    let ok: Result<&str, ParserRejection> = Ok("v");
    assert_eq!(Query::from_request_parts(ok, None).unwrap().0, "v");
}

#[test]
fn pagination_rules() {
    assert_eq!(default_current(), 1);
    assert_eq!(default_page_size(), 10);
    let p = Pagination::new();
    assert_eq!((p.current, p.page_size), (1, 10));
    assert!(p.validate().is_ok());
    for size in [10, 20, 50, 100] {
        assert!(validate_page_size(size).is_ok());
        assert!(Pagination { current: 7, page_size: size }.validate().is_ok());
    }
    for size in [0, 1, 9, 11, 25, 99, 101, 1000, u32::MAX] {
        let error = validate_page_size(size).unwrap_err();
        assert_eq!(error.code, "invalid_page_size");
        let errors = Pagination { current: 1, page_size: size }.validate().unwrap_err();
        assert_eq!(errors.len(), 1);
        assert_eq!(errors[0].field, "page_size");
        assert_eq!(errors[0].message, "Invalid pageSize");
    }
    let errors = Pagination { current: 0, page_size: 10 }.validate().unwrap_err();
    assert_eq!(errors.len(), 1);
    assert_eq!((errors[0].field, errors[0].message), ("current", "Invalid current"));
    let errors = Pagination { current: 0, page_size: 3 }.validate().unwrap_err();
    assert_eq!(errors.len(), 2);
    assert_eq!(errors[0].field, "current");
    assert_eq!(errors[1].field, "page_size");
}

#[test]
fn access_code_rules() {
    assert!(AccessCodeDto { code: "12345678".to_string() }.validate().is_ok());
    assert!(AccessCodeDto { code: "123456789".to_string() }.validate().is_ok());
    // characters count, not bytes
    assert!(AccessCodeDto { code: "ääääääää".to_string() }.validate().is_ok());
    assert!(AccessCodeDto { code: "äääääää".to_string() }.validate().is_err());
    let error = AccessCodeDto { code: "1234567".to_string() }.validate().unwrap_err();
    assert_eq!((error.field, error.message), ("code", "Invalid access code"));
    assert!(AccessCodeDto { code: String::new() }.validate().is_err());
}

#[test]
fn access_code_is_compared_with_the_document() {
    let mut d = ISynclan::default();
    let input = AccessCodeDto { code: "12345678".to_string() };
    assert!(matches!(verify_access_code(&d, &input), Err(HttpException::UnauthorizedException(None))));
    d.authorized_access_code = Some("87654321".to_string());
    assert!(matches!(verify_access_code(&d, &input), Err(HttpException::UnauthorizedException(None))));
    d.authorized_access_code = Some("12345678 ".to_string());
    assert!(matches!(verify_access_code(&d, &input), Err(HttpException::UnauthorizedException(None))));
    d.authorized_access_code = Some("12345678".to_string());
    match verify_access_code(&d, &input) {
        Ok(HttpResponse::Json { payload, message }) => {
            assert_eq!(payload, None);
            assert_eq!(message.as_deref(), Some("Authorization code verification passed."));
        },
        _ => panic!("the code is right"),
    }
}

#[test]
fn responses_are_rendered() {
    let r = HttpResponse::Json { payload: Some(3), message: Some("m".to_string()) };
    match r.into_response() {
        Rendered::Json { status, body } => {
            assert_eq!(status, 200);
            assert_eq!(body.status_code, 200);
            assert_eq!(body.payload, Some(3));
            assert_eq!(body.message.as_deref(), Some("m"));
        },
        Rendered::Redirect { .. } => panic!("a JSON answer"),
    }
    let r: HttpResponse<u8> = HttpResponse::RedirectTo { uri: "/elsewhere".to_string() };
    match r.into_response() {
        Rendered::Redirect { status, location } => {
            assert_eq!(status, 307);
            assert_eq!(location, "/elsewhere");
        },
        Rendered::Json { .. } => panic!("a redirection"),
    }
}

#[test]
fn uploads_go_below_the_day() {
    let mut d = ISynclan::default();
    match upload_handler(&d, "2024-05-01", "a.txt") {
        Err(HttpException::ServiceUnavailableException(Some(message))) => {
            assert_eq!(message, "File upload directory is not configured.")
        },
        _ => panic!("no upload directory"),
    }
    d.file_upload_dir = Some("/up".to_string());
    let t = upload_handler(&d, "2024-05-01", "a.txt").unwrap();
    assert_eq!(t.root, "/up");
    assert_eq!(t.folder, "2024-05-01");
    assert_eq!(t.file_name, "a.txt");
    assert_eq!(t.payload, "2024-05-01/a.txt");
}

#[test]
fn guard_lets_registered_devices_through() {
    let mut db = DBManager::new();
    assert_eq!(AuthGuard::from_request_parts(Some("dev"), &db).err(), Some((401, "Unauthorized")));
    db.init();
    assert_eq!(AuthGuard::from_request_parts(Some("dev"), &db).err(), Some((401, "Unauthorized")));
    assert_eq!(AuthGuard::from_request_parts(None, &db).err(), Some((401, "Unauthorized")));
    let device = synclan::client::Client {
        id: "dev".to_string(),
        name: None,
        avatar: None,
        auto_message_clean: None,
        created_at: None,
        updated_at: None,
    };
    device.create(&mut db, 0).unwrap();
    let claims = AuthGuard::from_request_parts(Some("dev"), &db).unwrap();
    assert_eq!(claims.client_id, "dev");
    assert_eq!(AuthGuard::from_request_parts(Some("Dev"), &db).err(), Some((401, "Unauthorized")));
    assert_eq!(AuthGuard::let_through(Some(device)).unwrap().client_id, "dev");
    assert_eq!(AuthGuard::let_through(None).err(), Some((401, "Unauthorized")));

    let attached = Claims::new("dev".to_string());
    assert_eq!(Claims::from_request_parts(Some(&attached)).unwrap().client_id, "dev");
    assert_eq!(Claims::from_request_parts(None).err(), Some((401, "Unauthorized")));
}

fn names(list: &[&str]) -> Vec<String> {
    list.iter().map(|s| s.to_string()).collect()
}

#[test]
fn languages_come_from_json_files() {
    assert_eq!(get_supported_languages(&names(&["en.json", "zh.json", "README.md", "de.json"])), names(&["en", "zh", "de"]));
    assert_eq!(get_supported_languages(&names(&[])), names(&["en"]));
    assert_eq!(get_supported_languages(&names(&["notes.txt", "json"])), names(&["en"]));
    assert_eq!(get_supported_languages(&names(&[".json"])), names(&[""]));
    assert_eq!(get_supported_languages(&names(&["pt-br.json", "x.JSON", "a.json.bak"])), names(&["pt-br"]));
    assert_eq!(language_of_file_name("fr.json").as_deref(), Some("fr"));
    assert_eq!(language_of_file_name("日本語.json").as_deref(), Some("日本語"));
    assert_eq!(language_of_file_name("fr.jso"), None);
    assert_eq!(language_of_file_name("json"), None);
}

#[test]
fn locale_picks_a_supported_language() {
    let supported = names(&["en", "zh", "de"]);
    let pick = |l: Option<&str>| pick_locale(l.map(|s| s.to_string()), &supported);
    assert_eq!(pick(Some("de-DE")), "de");
    assert_eq!(pick(Some("de_AT")), "de");
    assert_eq!(pick(Some("ZH-Hans-CN")), "zh");
    assert_eq!(pick(Some("zh")), "zh");
    assert_eq!(pick(Some("fr-FR")), "en");
    assert_eq!(pick(Some("")), "en");
    assert_eq!(pick(Some("-de")), "en");
    assert_eq!(pick(Some("EN_us")), "en");
    assert_eq!(pick(None), "en");
    // the default language is used even where it is not on offer
    assert_eq!(pick_locale(Some("fr".to_string()), &names(&["de"])), "en");
    assert_eq!(pick_locale(None, &names(&["de"])), "en");
    assert_eq!(language_of_tag("de-de"), "de");
    assert_eq!(language_of_tag("de_de-x"), "de");
    assert_eq!(language_of_tag("de"), "de");
    assert_eq!(language_of_tag("_"), "");
    assert_eq!(language_of_tag(""), "");
}

#[test]
fn system_locale_is_supported_or_default() {
    let supported = names(&["en", "zh", "de", "fr", "es", "ja", "ru", "pt", "it", "ko"]);
    let language = get_system_locale(&supported);
    assert!(supported.contains(&language));
    assert_eq!(get_system_locale(&names(&[])), "en");
}

#[test]
fn text_helpers() {
    assert_eq!(decimal_text(0), "0");
    assert_eq!(decimal_text(7), "7");
    assert_eq!(decimal_text(10), "10");
    assert_eq!(decimal_text(53317), "53317");
    assert_eq!(decimal_text(1000000), "1000000");
    assert_eq!(decimal_text(u64::MAX), "18446744073709551615");
    assert_eq!(joined("a", "b"), "ab");
    assert_eq!(joined("", ""), "");
    assert_eq!(owned("x"), "x");
    assert!(contains_text(&names(&["a", "b"]), "b"));
    assert!(!contains_text(&names(&["a", "b"]), "c"));
    assert!(!contains_text(&names(&[]), ""));
}
