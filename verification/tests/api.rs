use elite_atomic::api::{
    creation_request, creation_result, id_from_reading, read_created_id, rejection_message,
    status_is_success, tournament_form, ApiError, Exchange,
};
use elite_atomic::date::UtcDateTime;
use elite_atomic::tournament::{elite_atomic_at, Info};

fn answered(status: u16, body: &str) -> Exchange {
    Exchange::Answered { status, body: body.to_string() }
}

fn pair(name: &str, value: &str) -> (String, String) {
    (name.to_string(), value.to_string())
}

#[test]
fn creation_result_with_an_id() {
    assert_eq!(
        creation_result(answered(200, "{\"id\":\"abcd1234\"}")),
        Ok("abcd1234".to_string())
    );
    assert_eq!(
        creation_result(answered(201, "{\"foo\": 1, \"id\": \"x\"}")),
        Ok("x".to_string())
    );
}

#[test]
fn creation_result_without_an_id() {
    assert_eq!(
        creation_result(answered(200, "{\"foo\":\"bar\"}")),
        Err(ApiError::Malformed)
    );
}

#[test]
fn creation_result_with_an_id_that_is_no_string() {
    assert_eq!(creation_result(answered(200, "{\"id\":12}")), Err(ApiError::Malformed));
    assert_eq!(creation_result(answered(200, "{\"id\":null}")), Err(ApiError::Malformed));
    assert_eq!(creation_result(answered(200, "[\"id\"]")), Err(ApiError::Malformed));
    assert_eq!(creation_result(answered(200, "\"id\"")), Err(ApiError::Malformed));
}

#[test]
fn creation_result_rejected() {
    assert_eq!(
        creation_result(answered(400, "{\"error\":\"Invalid name\"}")),
        Err(ApiError::Rejected { status: 400, body: "{\"error\":\"Invalid name\"}".to_string() })
    );
    assert_eq!(
        creation_result(answered(401, "{\"id\":\"abcd1234\"}")),
        Err(ApiError::Rejected { status: 401, body: "{\"id\":\"abcd1234\"}".to_string() })
    );
    assert_eq!(
        creation_result(answered(500, "not json")),
        Err(ApiError::Rejected { status: 500, body: "not json".to_string() })
    );
}

#[test]
fn creation_result_at_the_edges_of_success() {
    let body = "{\"id\":\"k\"}";
    assert_eq!(
        creation_result(answered(199, body)),
        Err(ApiError::Rejected { status: 199, body: body.to_string() })
    );
    assert_eq!(creation_result(answered(200, body)), Ok("k".to_string()));
    assert_eq!(creation_result(answered(299, body)), Ok("k".to_string()));
    assert_eq!(
        creation_result(answered(300, body)),
        Err(ApiError::Rejected { status: 300, body: body.to_string() })
    );
    assert!(!status_is_success(199));
    assert!(status_is_success(200));
    assert!(status_is_success(299));
    assert!(!status_is_success(300));
}

#[test]
fn creation_result_with_a_body_that_is_no_json() {
    assert!(matches!(
        creation_result(answered(200, "{\"id\":")),
        Err(ApiError::Transport { .. })
    ));
    assert!(matches!(creation_result(answered(200, "")), Err(ApiError::Transport { .. })));
}

#[test]
fn creation_result_of_a_failed_exchange() {
    assert_eq!(
        creation_result(Exchange::Failed { cause: "connection refused".to_string() }),
        Err(ApiError::Transport { cause: "connection refused".to_string() })
    );
}

#[test]
fn read_created_id_tells_the_three_cases() {
    assert_eq!(read_created_id("{\"id\":\"abcd1234\"}"), Ok(Some("abcd1234".to_string())));
    assert_eq!(read_created_id("{\"id\":\"\"}"), Ok(Some(String::new())));
    assert_eq!(read_created_id("{\"foo\":\"bar\"}"), Ok(None));
    assert_eq!(read_created_id("{\"a\":{\"id\":\"deep\"}}"), Ok(None));
    assert!(read_created_id("{").is_err());
}

#[test]
fn id_from_reading_each_case() {
    assert_eq!(id_from_reading(Ok(Some("abcd1234".to_string()))), Ok("abcd1234".to_string()));
    assert_eq!(id_from_reading(Ok(None)), Err(ApiError::Malformed));
    assert_eq!(
        id_from_reading(Err("EOF while parsing".to_string())),
        Err(ApiError::Transport { cause: "EOF while parsing".to_string() })
    );
}

#[test]
fn tournament_form_of_the_fourth_sunday() {
    // 2019-08-25T19:00:00Z
    let start = UtcDateTime::from_timestamp(1_566_759_600).unwrap();
    let form = tournament_form(&elite_atomic_at(start));
    assert_eq!(
        form,
        vec![
            pair("name", "Elite Atomic"),
            pair("clockTime", "1"),
            pair("clockIncrement", "0"),
            pair("minutes", "120"),
            pair("startDate", "1566759600000"),
            pair("variant", "atomic"),
            pair("rated", "true"),
            pair("berserkable", "true"),
            pair("conditions.minRating.rating", "2000"),
        ]
    );
}

#[test]
fn tournament_form_of_other_values() {
    let info = Info {
        name: "Test & more",
        clock_time: -3,
        clock_increment: 15,
        minutes: 0,
        start_date: -1,
        variant: "standard",
        rated: false,
        berserkable: false,
        min_rating: i32::MIN,
    };
    assert_eq!(
        tournament_form(&info),
        vec![
            pair("name", "Test & more"),
            pair("clockTime", "-3"),
            pair("clockIncrement", "15"),
            pair("minutes", "0"),
            pair("startDate", "-1"),
            pair("variant", "standard"),
            pair("rated", "false"),
            pair("berserkable", "false"),
            pair("conditions.minRating.rating", "-2147483648"),
        ]
    );
}

#[test]
fn creation_request_names_the_endpoint_and_the_token() {
    let start = UtcDateTime::from_timestamp(1_566_759_600).unwrap();
    let info = elite_atomic_at(start);
    let request = creation_request(&info, "token-for-tests");
    assert_eq!(request.url, "https://lichess.org/api/tournament");
    assert_eq!(request.bearer_token, "token-for-tests");
    assert_eq!(request.form, tournament_form(&info));
}

#[test]
fn message_of_a_rejection() {
    let error = ApiError::Rejected { status: 400, body: "{\"error\":\"Invalid name\"}".to_string() };
    assert_eq!(
        error.message(),
        "Unsuccessful API request:\n400 Bad Request\n{\"error\":\"Invalid name\"}"
    );
    let error = ApiError::Rejected { status: 401, body: String::new() };
    assert_eq!(error.message(), "Unsuccessful API request:\n401 Unauthorized\n");
    let error = ApiError::Rejected { status: 599, body: "x".to_string() };
    assert_eq!(error.message(), "Unsuccessful API request:\n599 <unknown status code>\nx");
}

#[test]
fn message_of_a_rejection_with_a_number_that_is_no_status() {
    let error = ApiError::Rejected { status: 99, body: "low".to_string() };
    assert_eq!(error.message(), "Unsuccessful API request:\n99\nlow");
    let error = ApiError::Rejected { status: 1000, body: "high".to_string() };
    assert_eq!(error.message(), "Unsuccessful API request:\n1000\nhigh");
    let error = ApiError::Rejected { status: 100, body: String::new() };
    assert_eq!(error.message(), "Unsuccessful API request:\n100 Continue\n");
}

#[test]
fn message_of_the_other_errors() {
    assert_eq!(
        ApiError::Malformed.message(),
        "Could not retrieve ID after creating tournament."
    );
    assert_eq!(
        ApiError::Transport { cause: "connection refused".to_string() }.message(),
        "connection refused"
    );
}

#[test]
fn rejection_message_puts_each_part_on_a_line() {
    assert_eq!(
        rejection_message("400 Bad Request", "body"),
        "Unsuccessful API request:\n400 Bad Request\nbody"
    );
    assert_eq!(rejection_message("", ""), "Unsuccessful API request:\n\n");
}

#[test]
fn message_of_a_rejected_exchange() {
    let error = creation_result(answered(400, "Bad")).unwrap_err();
    assert_eq!(error.message(), "Unsuccessful API request:\n400 Bad Request\nBad");
}

#[test]
fn transport_cause_is_the_message_of_the_json_reader() {
    for body in ["", "{\"id\":", "{\"id\" \"x\"}", "nul", "{\"id\":\"x\"} trailing"] {
        let expected = serde_json::from_str::<serde_json::Value>(body).unwrap_err().to_string();
        assert_eq!(read_created_id(body), Err(expected.clone()));
        assert_eq!(
            creation_result(answered(200, body)),
            Err(ApiError::Transport { cause: expected })
        );
    }
    assert_eq!(
        read_created_id(""),
        Err("EOF while parsing a value at line 1 column 0".to_string())
    );
}
