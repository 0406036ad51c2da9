use yoda_taller::settings::{ApplicationSettings, Settings, SwapiSettings};
use yoda_taller::swapi::{search_url, urlescape, RequestFailure, SwapiError};
use yoda_taller::taller::{YodaTallerError, YodaTallerOutcome};
use yoda_taller::taller_route::{success_response_parts, YodaTallerErrorResponse};

#[test]
fn search_url_appends_path_and_escaped_query() {
    let url = search_url("http://localhost:9992", "Luke Skywalker");
    assert_eq!(url, "http://localhost:9992/api/people/?search=Luke%20Skywalker");
}

#[test]
fn search_url_with_empty_name_ends_at_the_parameter() {
    let url = search_url("https://swapi.example", "");
    assert_eq!(url, "https://swapi.example/api/people/?search=");
}

#[test]
fn unreserved_names_pass_through_unescaped() {
    assert_eq!(urlescape("Luke"), "Luke");
    assert_eq!(urlescape("C-3PO.x_y~z"), "C-3PO.x_y~z");
    assert_eq!(urlescape(""), "");
}

#[test]
fn separators_and_delimiters_are_escaped() {
    assert_eq!(urlescape("Luke Skywalker"), "Luke%20Skywalker");
    assert_eq!(urlescape("a&results=x"), "a%26results%3Dx");
    assert_eq!(urlescape("x+y/z?"), "x%2By%2Fz%3F");
    assert_eq!(urlescape("100%"), "100%25");
}

#[test]
fn non_ascii_names_are_escaped_bytewise() {
    assert_eq!(urlescape("Padm\u{e9}"), "Padm%C3%A9");
    assert_eq!(urlescape("\u{2603}"), "%E2%98%83");
    assert_eq!(urlescape("\u{1f600}"), "%F0%9F%98%80");
}

#[test]
fn success_maps_to_200_and_echoes_the_query() {
    let outcome = YodaTallerOutcome { person: "Yaddle".to_string(), taller: true };
    let (status, body) = success_response_parts("Yaddle".to_string(), outcome.clone());
    assert_eq!(status, 200);
    assert_eq!(body.query, "Yaddle");
    assert_eq!(body.result, outcome);
}

#[test]
fn person_not_found_maps_to_404() {
    let resp = YodaTallerErrorResponse {
        query: "Spock".to_string(),
        error: YodaTallerError::PersonNotFound,
    };
    let (status, body) = resp.into_response_parts();
    assert_eq!(status, 404);
    assert_eq!(body.query, "Spock");
    assert_eq!(body.error, "Person not found");
}

#[test]
fn height_not_found_maps_to_404() {
    let resp = YodaTallerErrorResponse {
        query: "Arvel Crynyd".to_string(),
        error: YodaTallerError::HeightNotFound,
    };
    let (status, body) = resp.into_response_parts();
    assert_eq!(status, 404);
    assert_eq!(body.query, "Arvel Crynyd");
    assert_eq!(body.error, "Person's height is unknown");
}

#[test]
fn unexpected_error_maps_to_500_and_hides_the_cause() {
    let resp = YodaTallerErrorResponse {
        query: "Luke Skywalker".to_string(),
        error: YodaTallerError::UnexpectedError(SwapiError::RequestFailed(
            RequestFailure::Timeout,
        )),
    };
    let (status, body) = resp.into_response_parts();
    assert_eq!(status, 500);
    assert_eq!(body.query, "Luke Skywalker");
    assert_eq!(body.error, "Unexpected error");
}

#[test]
fn settings_expose_the_timeout_in_milliseconds() {
    let settings = Settings {
        application: ApplicationSettings { port: 8000 },
        swapi: SwapiSettings {
            base_url: "http://localhost:9992".to_string(),
            timeout_milliseconds: 2000,
        },
    };
    assert_eq!(settings.timeout_millis(), 2000);
}
