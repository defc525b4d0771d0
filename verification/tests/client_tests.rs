use bytes::Bytes;
use mp3_downloader::api::client::{
    status_message, success, ApiClient, ApiError, Body, Exchange, Goal, Handshake, Output, Reply,
    Request, Stage, Step, ORIGIN, REFERER,
};
use mp3_downloader::api::models::{ApiConfig, ConvertResponse, InitResponse};

const SERVER: &str = "http://127.0.0.1:1234";
const PAGE: &str = "<script>JSON.parse('[[66],0,[1],0,0,0,107]')</script>";

fn client() -> ApiClient {
    ApiClient::new(ApiConfig { user_id: "test_user".to_string(), base_init_url: SERVER.to_string() })
}

fn ok(body: Body) -> Reply {
    Reply::Received { status: 200, body }
}

fn init_body(convert_url: &str, error: &str) -> Body {
    Body::Init(InitResponse { convert_url: convert_url.to_string(), error: error.to_string() })
}

fn conversion(error: i32, download_url: &str, redirect_url: &str, redirect: i32, title: &str) -> ConvertResponse {
    ConvertResponse {
        error,
        progress_url: String::new(),
        download_url: download_url.to_string(),
        redirect_url: redirect_url.to_string(),
        redirect,
        title: title.to_string(),
    }
}

fn sent(step: Step) -> (Handshake, Request) {
    match step {
        Step::Send(handshake, request) => (handshake, request),
        Step::Done(result) => panic!("the handshake ended: {:?}", result),
    }
}

fn done(step: Step) -> Result<Output, ApiError> {
    match step {
        Step::Done(result) => result,
        Step::Send(_, request) => panic!("the handshake went on: {:?}", request),
    }
}

fn get(url: &str) -> Request {
    Request { url: url.to_string(), origin: ORIGIN.to_string(), referer: REFERER.to_string() }
}

#[test]
fn test_get_download_info() {
    let client = client();
    let (handshake, request) = client.get_download_info("test_video_id");
    assert_eq!(request, get("https://v1.y2mate.nu/"));
    let (handshake, request) = sent(handshake.step_at(ok(Body::Page(PAGE.to_string())), 1700000001));
    assert_eq!(request, get("http://127.0.0.1:1234/init?k=A&t=1700000001"));
    let (handshake, request) = sent(handshake.step_at(
        ok(init_body(&format!("{}/convert?sig=test123", SERVER), "0")),
        1700000002,
    ));
    assert_eq!(
        request,
        get("http://127.0.0.1:1234/convert?sig=test123&v=test_video_id&f=mp3&t=1700000002")
    );
    let result = done(handshake.step_at(
        ok(Body::Convert(conversion(0, &format!("{}/download.mp3", SERVER), "", 0, "Test Song"))),
        1700000003,
    ));
    assert!(result.is_ok());
    let output = result.unwrap();
    assert_eq!(
        output,
        Output::Info("Test Song".to_string(), format!("{}/download.mp3", SERVER))
    );
}

#[test]
fn test_client_new() {
    let config = ApiConfig {
        user_id: "test_user".to_string(),
        base_init_url: "https://example.com".to_string(),
    };
    let client = ApiClient::new(config);
    assert_eq!(client.config().user_id, "test_user");
    assert_eq!(client.config().base_init_url, "https://example.com");
}

#[test]
fn test_client_with_user_id() {
    let client = ApiClient::with_user_id("test_user".to_string());
    assert_eq!(client.config().user_id, "test_user");
    assert_eq!(client.config().base_init_url, "https://eta.etacloud.org/api/v1");
}

#[test]
fn test_init_success() {
    let client = client();
    let (handshake, request) = client.init();
    assert_eq!(request, get(REFERER));
    let (handshake, request) = sent(handshake.step_at(ok(Body::Page(PAGE.to_string())), 5));
    assert_eq!(request, get("http://127.0.0.1:1234/init?k=A&t=5"));
    let result = done(handshake.step_at(ok(init_body("/convert?sig=test123", "0")), 6));
    assert!(result.is_ok());
    assert_eq!(result.unwrap(), Output::ConvertUrl("/convert?sig=test123".to_string()));
}

#[test]
fn test_init_api_error() {
    let client = client();
    let (handshake, _) = client.init();
    let (handshake, _) = sent(handshake.step_at(ok(Body::Page(PAGE.to_string())), 5));
    let result = done(handshake.step_at(ok(init_body("", "INVALID_USER")), 6));
    assert!(result.is_err());
    let error = result.unwrap_err();
    assert!(matches!(error, ApiError::ApiError(_)));
    assert_eq!(error, ApiError::ApiError("INVALID_USER".to_string()));
}

#[test]
fn test_convert_success() {
    let client = client();
    let convert_url = &format!("{}/convert?sig=test123", SERVER);
    let (handshake, request) = client.convert_at(convert_url, "test_video_id", 42);
    assert_eq!(
        request,
        get("http://127.0.0.1:1234/convert?sig=test123&v=test_video_id&f=mp3&t=42")
    );
    let result = done(handshake.step_at(
        ok(Body::Convert(conversion(0, "https://example.com/download.mp3", "", 0, "Test Song"))),
        43,
    ));
    assert!(result.is_ok());
    match result.unwrap() {
        Output::Conversion(response) => {
            assert_eq!(response.title, "Test Song");
            assert_eq!(response.download_url, "https://example.com/download.mp3");
            assert_eq!(response.error, 0);
        }
        other => panic!("not a conversion: {:?}", other),
    }
}

#[test]
fn test_convert_with_redirect() {
    let client = client();
    let convert_url = &format!("{}/convert?sig=test123", SERVER);
    let (handshake, _) = client.convert_at(convert_url, "test_video_id", 42);
    let redirect_response = conversion(0, "", &format!("{}/redirect", SERVER), 1, "");
    let (handshake, request) = sent(handshake.step_at(ok(Body::Convert(redirect_response)), 43));
    assert_eq!(request, get("http://127.0.0.1:1234/redirect&t=43"));
    assert_eq!(handshake.stage, Stage::Redirect);
    let final_response = conversion(0, "https://example.com/download.mp3", "", 0, "Test Song");
    let result = done(handshake.step_at(ok(Body::Convert(final_response)), 44));
    assert!(result.is_ok());
    match result.unwrap() {
        Output::Conversion(response) => {
            assert_eq!(response.title, "Test Song");
            assert_eq!(response.download_url, "https://example.com/download.mp3");
        }
        other => panic!("not a conversion: {:?}", other),
    }
}

#[test]
fn test_convert_error() {
    let client = client();
    let convert_url = &format!("{}/convert?sig=test123", SERVER);
    let (handshake, _) = client.convert_at(convert_url, "test_video_id", 42);
    let result = done(handshake.step_at(ok(Body::Convert(conversion(400, "", "", 0, ""))), 43));
    assert!(result.is_err());
    let error = result.unwrap_err();
    assert!(matches!(error, ApiError::ApiError(_)));
    assert_eq!(error, ApiError::ApiError("Error code: 400".to_string()));
}

#[test]
fn test_download_file_success() {
    let client = client();
    let test_data = b"Test MP3 data";
    let download_url = &format!("{}/download/test.mp3", SERVER);
    let (handshake, request) = client.download_file(download_url);
    assert_eq!(request, get("http://127.0.0.1:1234/download/test.mp3"));
    let result = done(handshake.step_at(ok(Body::File(Bytes::from_static(test_data))), 1));
    assert!(result.is_ok());
    match result.unwrap() {
        Output::File(data) => assert_eq!(data.as_ref(), test_data),
        other => panic!("not a file: {:?}", other),
    }
}

#[test]
fn test_download_file_error() {
    let client = client();
    let download_url = &format!("{}/download/test.mp3", SERVER);
    let (handshake, _) = client.download_file(download_url);
    let result = done(handshake.step_at(Reply::Received { status: 404, body: Body::Malformed }, 1));
    assert!(result.is_err());
    let error = result.unwrap_err();
    assert_eq!(error, ApiError::HttpStatus(404, Exchange::Download));
    assert_eq!(
        error.to_string(),
        "API returned error: Download failed with status: 404 Not Found"
    );
}

#[test]
fn test_download_mp3_full_workflow() {
    let client = client();
    let (handshake, request) = client.download_mp3("test_video_id");
    assert_eq!(request, get(REFERER));
    let (handshake, _) = sent(handshake.step_at(ok(Body::Page(PAGE.to_string())), 1));
    let (handshake, _) = sent(handshake.step_at(
        ok(init_body(&format!("{}/convert?sig=test123", SERVER), "0")),
        2,
    ));
    let (handshake, request) = sent(handshake.step_at(
        ok(Body::Convert(conversion(0, &format!("{}/download.mp3", SERVER), "", 0, "Test Song"))),
        3,
    ));
    assert_eq!(request, get("http://127.0.0.1:1234/download.mp3"));
    assert_eq!(handshake.stage, Stage::Payload);
    let test_data = b"Test MP3 file content";
    let result = done(handshake.step_at(ok(Body::File(Bytes::from_static(test_data))), 4));
    assert!(result.is_ok());
    match result.unwrap() {
        Output::Mp3(title, data) => {
            assert_eq!(title, "Test Song");
            assert_eq!(data.as_ref(), test_data);
        }
        other => panic!("not an audio file: {:?}", other),
    }
}

#[test]
fn test_download_mp3_no_download_url() {
    let client = client();
    let (handshake, _) = client.download_mp3("test_video_id");
    let (handshake, _) = sent(handshake.step_at(ok(Body::Page(PAGE.to_string())), 1));
    let (handshake, _) = sent(handshake.step_at(
        ok(init_body(&format!("{}/convert?sig=test123", SERVER), "0")),
        2,
    ));
    let result = done(handshake.step_at(ok(Body::Convert(conversion(0, "", "", 0, "Test Song"))), 3));
    assert!(result.is_err());
    assert!(matches!(result.unwrap_err(), ApiError::NoDownloadUrl));
}

#[test]
fn test_api_error_display() {
    let error = ApiError::ApiError("test error".to_string());
    assert_eq!(error.to_string(), "API returned error: test error");

    let error = ApiError::InvalidResponse;
    assert_eq!(error.to_string(), "Invalid response format");

    let error = ApiError::NoDownloadUrl;
    assert_eq!(error.to_string(), "Download URL not found");
}

#[test]
fn every_error_has_its_message() {
    assert_eq!(
        ApiError::RequestError("connection refused".to_string()).to_string(),
        "HTTP request failed: connection refused"
    );
    assert_eq!(
        ApiError::HttpStatus(503, Exchange::Init).to_string(),
        "API returned error: HTTP 503 Service Unavailable: Init request failed"
    );
    assert_eq!(
        ApiError::HttpStatus(400, Exchange::Convert).to_string(),
        "API returned error: HTTP 400 Bad Request: Convert request failed"
    );
    assert_eq!(
        ApiError::HttpStatus(65535, Exchange::Redirect).to_string(),
        "API returned error: HTTP 65535: Redirect request failed"
    );
    assert_eq!(
        ApiError::HttpStatus(0, Exchange::Download).to_string(),
        "API returned error: Download failed with status: 0"
    );
    assert_eq!(
        ApiError::HttpStatus(99, Exchange::Download).to_string(),
        "API returned error: Download failed with status: 99"
    );
    assert_eq!(
        ApiError::HttpStatus(1000, Exchange::Init).to_string(),
        "API returned error: HTTP 1000: Init request failed"
    );
    assert_eq!(
        ApiError::HttpStatus(100, Exchange::Init).to_string(),
        "API returned error: HTTP 100 Continue: Init request failed"
    );
    assert_eq!(
        ApiError::HttpStatus(999, Exchange::Convert).to_string(),
        "API returned error: HTTP 999 <unknown status code>: Convert request failed"
    );
    assert_eq!(ApiError::AuthExtraction.to_string(), "Authorization token not found");
}

#[test]
fn info_without_download_url_fails_apart_from_the_service_error() {
    let client = client();
    let (handshake, _) = client.get_download_info("id");
    let (handshake, _) = sent(handshake.step_at(ok(Body::Page(PAGE.to_string())), 1));
    let (handshake, _) = sent(handshake.step_at(ok(init_body("c?sig=1", "0")), 2));
    let result = done(handshake.step_at(ok(Body::Convert(conversion(0, "", "", 0, "Song"))), 3));
    assert_eq!(result, Err(ApiError::NoDownloadUrl));
}

#[test]
fn error_code_wins_over_everything_else_in_the_answer() {
    let client = client();
    for code in [1, -1, 400, i32::MAX, i32::MIN] {
        let (handshake, _) = client.convert_at("c?sig=1", "id", 1);
        let answer = conversion(code, "https://example.com/a.mp3", "https://example.com/r", 1, "Song");
        let result = done(handshake.step_at(ok(Body::Convert(answer)), 2));
        assert_eq!(result, Err(ApiError::ApiError(format!("Error code: {}", code))));
    }
}

#[test]
fn second_redirect_is_not_followed() {
    let client = client();
    let (handshake, _) = client.convert_at("c?sig=1", "id", 1);
    let first = conversion(0, "", "https://example.com/r1?x=1", 1, "");
    let (handshake, request) = sent(handshake.step_at(ok(Body::Convert(first)), 2));
    assert_eq!(request, get("https://example.com/r1?x=1&t=2"));
    let second = conversion(0, "", "https://example.com/r2?x=2", 1, "Again");
    let result = done(handshake.step_at(ok(Body::Convert(second)), 3));
    assert_eq!(
        result,
        Ok(Output::Conversion(conversion(0, "", "https://example.com/r2?x=2", 1, "Again")))
    );
}

#[test]
fn second_redirect_without_download_url_fails_the_info_handshake() {
    let client = client();
    let (handshake, _) = client.get_download_info("id");
    let (handshake, _) = sent(handshake.step_at(ok(Body::Page(PAGE.to_string())), 1));
    let (handshake, _) = sent(handshake.step_at(ok(init_body("c?sig=1", "0")), 2));
    let first = conversion(0, "", "https://example.com/r1?x=1", 1, "");
    let (handshake, _) = sent(handshake.step_at(ok(Body::Convert(first)), 3));
    let second = conversion(0, "", "https://example.com/r2?x=2", 1, "Again");
    assert_eq!(done(handshake.step_at(ok(Body::Convert(second)), 4)), Err(ApiError::NoDownloadUrl));
}

#[test]
fn redirect_needs_the_flag_and_an_address() {
    let client = client();
    let (handshake, _) = client.convert_at("c?sig=1", "id", 1);
    let flag_only = conversion(0, "https://example.com/a.mp3", "", 1, "Song");
    assert!(matches!(handshake.step_at(ok(Body::Convert(flag_only)), 2), Step::Done(Ok(_))));
    let (handshake, _) = client.convert_at("c?sig=1", "id", 1);
    let address_only = conversion(0, "https://example.com/a.mp3", "https://example.com/r", 0, "Song");
    assert!(matches!(handshake.step_at(ok(Body::Convert(address_only)), 2), Step::Done(Ok(_))));
    let (handshake, _) = client.convert_at("c?sig=1", "id", 1);
    let other_flag = conversion(0, "https://example.com/a.mp3", "https://example.com/r", 2, "Song");
    assert!(matches!(handshake.step_at(ok(Body::Convert(other_flag)), 2), Step::Done(Ok(_))));
}

#[test]
fn every_stage_reports_transport_failure() {
    let client = client();
    let lost = || Reply::Failed("connection reset".to_string());
    let expected = Err(ApiError::RequestError("connection reset".to_string()));
    let (handshake, _) = client.download_mp3("id");
    assert_eq!(done(handshake.step_at(lost(), 1)), expected);
    let (handshake, _) = client.download_mp3("id");
    let (handshake, _) = sent(handshake.step_at(ok(Body::Page(PAGE.to_string())), 1));
    assert_eq!(done(handshake.step_at(lost(), 1)), expected);
    let (handshake, _) = client.convert_at("c?sig=1", "id", 1);
    assert_eq!(done(handshake.step_at(lost(), 1)), expected);
    let (handshake, _) = client.convert_at("c?sig=1", "id", 1);
    let (handshake, _) = sent(handshake.step_at(ok(Body::Convert(conversion(0, "", "r", 1, ""))), 1));
    assert_eq!(done(handshake.step_at(lost(), 1)), expected);
    let (handshake, _) = client.download_file("https://example.com/a.mp3");
    assert_eq!(done(handshake.step_at(lost(), 1)), expected);
}

#[test]
fn status_outside_success_fails_each_checked_exchange() {
    let client = client();
    let refused = |status: u16| Reply::Received { status, body: Body::Malformed };
    let (handshake, _) = client.init();
    let (handshake, _) = sent(handshake.step_at(ok(Body::Page(PAGE.to_string())), 1));
    assert_eq!(
        done(handshake.step_at(refused(500), 1)),
        Err(ApiError::HttpStatus(500, Exchange::Init))
    );
    let (handshake, _) = client.convert_at("c?sig=1", "id", 1);
    assert_eq!(
        done(handshake.step_at(refused(199), 1)),
        Err(ApiError::HttpStatus(199, Exchange::Convert))
    );
    let (handshake, _) = client.convert_at("c?sig=1", "id", 1);
    let (handshake, _) = sent(handshake.step_at(ok(Body::Convert(conversion(0, "", "r", 1, ""))), 1));
    assert_eq!(
        done(handshake.step_at(refused(300), 1)),
        Err(ApiError::HttpStatus(300, Exchange::Redirect))
    );
}

#[test]
fn status_is_checked_before_the_body() {
    let client = client();
    let (handshake, _) = client.convert_at("c?sig=1", "id", 1);
    let reply = Reply::Received {
        status: 404,
        body: Body::Convert(conversion(0, "https://example.com/a.mp3", "", 0, "Song")),
    };
    assert_eq!(done(handshake.step_at(reply, 1)), Err(ApiError::HttpStatus(404, Exchange::Convert)));
    let (handshake, _) = client.convert_at("c?sig=1", "id", 1);
    let reply = Reply::Received {
        status: 299,
        body: Body::Convert(conversion(0, "https://example.com/a.mp3", "", 0, "Song")),
    };
    assert!(matches!(handshake.step_at(reply, 1), Step::Done(Ok(_))));
}

#[test]
fn body_of_the_wrong_kind_is_an_invalid_response() {
    let client = client();
    let (handshake, _) = client.init();
    assert_eq!(done(handshake.step_at(ok(Body::Malformed), 1)), Err(ApiError::InvalidResponse));
    let (handshake, _) = client.init();
    let (handshake, _) = sent(handshake.step_at(ok(Body::Page(PAGE.to_string())), 1));
    assert_eq!(
        done(handshake.step_at(ok(Body::Convert(conversion(0, "", "", 0, ""))), 1)),
        Err(ApiError::InvalidResponse)
    );
    let (handshake, _) = client.convert_at("c?sig=1", "id", 1);
    assert_eq!(
        done(handshake.step_at(ok(init_body("x", "0")), 1)),
        Err(ApiError::InvalidResponse)
    );
    let (handshake, _) = client.download_file("https://example.com/a.mp3");
    assert_eq!(
        done(handshake.step_at(ok(Body::Page(String::new())), 1)),
        Err(ApiError::InvalidResponse)
    );
}

#[test]
fn page_without_token_fails_the_handshake() {
    let client = client();
    let (handshake, _) = client.get_download_info("id");
    assert_eq!(
        done(handshake.step_at(ok(Body::Page("<html></html>".to_string())), 1)),
        Err(ApiError::AuthExtraction)
    );
}

#[test]
fn token_is_derived_again_for_every_page() {
    let client = client();
    let (handshake, _) = client.init();
    let (_, request) = sent(handshake.step_at(
        ok(Body::Page("JSON.parse('[[70,80],1,[2,3]]')".to_string())),
        9,
    ));
    // 70 - 3 = C, 80 - 2 = N, reversed
    assert_eq!(request.url, "http://127.0.0.1:1234/init?u=NC&t=9");
}

#[test]
fn handshake_keeps_goal_and_video_between_requests() {
    let client = client();
    let (handshake, _) = client.get_download_info("video");
    assert_eq!(handshake.goal, Goal::Info);
    assert_eq!(handshake.stage, Stage::Page);
    assert_eq!(handshake.video_id, "video");
    assert_eq!(handshake.base, SERVER);
    let (handshake, _) = sent(handshake.step_at(ok(Body::Page(PAGE.to_string())), 1));
    assert_eq!(handshake.goal, Goal::Info);
    assert_eq!(handshake.stage, Stage::Init);
    assert_eq!(handshake.video_id, "video");
    let (handshake, _) = sent(handshake.step_at(ok(init_body("c?sig=1", "0")), 2));
    assert_eq!(handshake.stage, Stage::Convert);
    assert_eq!(handshake.video_id, "video");
}

#[test]
fn clock_driven_steps_send_a_recent_time() {
    let client = client();
    let (handshake, request) = client.convert("c?sig=1", "id");
    let prefix = "c?sig=1&v=id&f=mp3&t=";
    assert!(request.url.starts_with(prefix));
    let time: u64 = request.url[prefix.len()..].parse().unwrap();
    assert!(time > 1700000000);
    let (_, request) = sent(handshake.step(ok(Body::Convert(conversion(0, "", "r?x=1", 1, "")))));
    let prefix = "r?x=1&t=";
    assert!(request.url.starts_with(prefix));
    let time: u64 = request.url[prefix.len()..].parse().unwrap();
    assert!(time > 1700000000);
}

#[test]
fn default_configuration_names_the_service() {
    let config = ApiConfig::default();
    assert_eq!(config.user_id, "uLYHx4FToXeloU3RJEEliN");
    assert_eq!(config.base_init_url, "https://eta.etacloud.org/api/v1");
    assert_eq!(ORIGIN, "https://v1.y2mate.nu");
    assert_eq!(REFERER, "https://v1.y2mate.nu/");
}

#[test]
fn redirect_decision_of_a_response() {
    assert!(conversion(0, "", "r", 1, "").wants_redirect());
    assert!(!conversion(0, "", "", 1, "").wants_redirect());
    assert!(!conversion(0, "", "r", 0, "").wants_redirect());
}

#[test]
fn status_message_by_exchange() {
    assert_eq!(
        status_message("418 I'm a teapot", Exchange::Init),
        "API returned error: HTTP 418 I'm a teapot: Init request failed"
    );
    assert_eq!(
        status_message("x", Exchange::Convert),
        "API returned error: HTTP x: Convert request failed"
    );
    assert_eq!(
        status_message("", Exchange::Redirect),
        "API returned error: HTTP : Redirect request failed"
    );
    assert_eq!(
        status_message("404 Not Found", Exchange::Download),
        "API returned error: Download failed with status: 404 Not Found"
    );
}

#[test]
fn success_is_two_hundred_to_two_ninety_nine() {
    assert!(!success(0));
    assert!(!success(199));
    assert!(success(200));
    assert!(success(299));
    assert!(!success(300));
    assert!(!success(u16::MAX));
}

#[test]
fn output_gives_its_info_or_nothing() {
    assert_eq!(
        Output::Info("t".to_string(), "u".to_string()).info(),
        Ok(("t".to_string(), "u".to_string()))
    );
    assert_eq!(Output::ConvertUrl("u".to_string()).info(), Err(ApiError::InvalidResponse));
    assert_eq!(Output::File(Bytes::new()).info(), Err(ApiError::InvalidResponse));
}
