use openai_transport::apis::completions::{Choice, Completion};
use openai_transport::apis::edits::{edit_response, EditBody};
use openai_transport::apis::EDIT_CREATE;
use openai_transport::openai::{Auth, OpenAI};
use openai_transport::requests::{decode_body, Error, Json, Method, Reply};

fn new_test_openai() -> OpenAI {
    let auth = Auth::new("sk-test".to_string(), Some("org-test".to_string())).unwrap();
    OpenAI::new(auth, "https://api.openai.com/v1/".to_string())
}

fn keys_of(document: &Json) -> Vec<String> {
    document.as_object().unwrap().keys().cloned().collect()
}

fn shape_error(result: Result<Completion, Error>) -> String {
    match result {
        Err(Error::RequestError(message)) => message,
        other => panic!("unexpected result: {:?}", other),
    }
}

#[test]
fn test_edit_create() {
    let openai = new_test_openai();
    let body = EditBody {
        model: "text-davinci-edit-001".to_string(),
        temperature: None,
        top_p: None,
        n: Some(2),
        instruction: "Fix the spelling mistakes".to_string(),
        input: Some("What day of the wek is it?".to_string()),
    };
    let request = openai.edit_request(&body);
    assert_eq!(request.method, Method::Post);
    assert_eq!(request.url, "https://api.openai.com/v1/edits");
    let sent = request.body.unwrap();
    assert_eq!(sent["instruction"], Json::from("Fix the spelling mistakes"));
    assert_eq!(sent["input"], Json::from("What day of the wek is it?"));
    let answer = "{\"object\":\"edit\",\"created\":1589478378,\"choices\":[\
        {\"text\":\"What day of the week is it?\",\"index\":0},\
        {\"text\":\"What day of the week is it?\\n\",\"index\":1}],\
        \"usage\":{\"prompt_tokens\":25,\"completion_tokens\":32,\"total_tokens\":57}}";
    let rs = edit_response(Reply::Body(answer.to_string()));
    let choice = rs.unwrap().choices;
    let text = &choice[0].text.as_ref().unwrap();
    assert_eq!(text.contains("week"), true);
}

#[test]
fn edit_path_is_fixed() {
    assert_eq!(EDIT_CREATE, "edits");
}

#[test]
fn unset_fields_are_left_out() {
    let body = EditBody {
        model: "m".to_string(),
        instruction: "i".to_string(),
        input: None,
        n: None,
        temperature: None,
        top_p: None,
    };
    let document = body.to_json();
    assert_eq!(keys_of(&document), vec!["instruction".to_string(), "model".to_string()]);
    assert_eq!(document.to_string(), "{\"instruction\":\"i\",\"model\":\"m\"}");
    assert!(!document.to_string().contains("null"));
}

#[test]
fn each_unset_field_is_left_out_alone() {
    let body = EditBody {
        model: "m".to_string(),
        instruction: "i".to_string(),
        input: Some("text".to_string()),
        n: None,
        temperature: Some(serde_json::Number::from_f64(0.5).unwrap()),
        top_p: None,
    };
    let document = body.to_json();
    assert_eq!(
        keys_of(&document),
        vec![
            "input".to_string(),
            "instruction".to_string(),
            "model".to_string(),
            "temperature".to_string(),
        ]
    );
    assert!(document.get("n").is_none());
    assert!(document.get("top_p").is_none());
    assert_eq!(document["temperature"].as_f64(), Some(0.5));
}

#[test]
fn set_fields_are_written_with_their_values() {
    let body = EditBody {
        model: "text-davinci-edit-001".to_string(),
        instruction: "Fix".to_string(),
        input: Some("wek".to_string()),
        n: Some(-3),
        temperature: Some(serde_json::Number::from_f64(0.25).unwrap()),
        top_p: Some(serde_json::Number::from_f64(1.0).unwrap()),
    };
    let document = body.to_json();
    assert_eq!(
        document.to_string(),
        "{\"input\":\"wek\",\"instruction\":\"Fix\",\"model\":\"text-davinci-edit-001\",\
         \"n\":-3,\"temperature\":0.25,\"top_p\":1.0}"
    );
    assert_eq!(document["n"].as_i64(), Some(-3));
    assert_eq!(document["model"].as_str(), Some("text-davinci-edit-001"));
}

#[test]
fn edit_request_carries_the_serialized_body() {
    let openai = new_test_openai();
    let body = EditBody {
        model: "m".to_string(),
        instruction: "i".to_string(),
        input: None,
        n: Some(1),
        temperature: None,
        top_p: None,
    };
    let request = openai.edit_request(&body);
    assert_eq!(request.body, Some(body.to_json()));
    assert_eq!(request.headers[1].name, "OpenAI-Organization");
    assert_eq!(request.headers[1].value, "org-test");
    assert_eq!(request.headers[2].value, "Bearer sk-test");
}

#[test]
fn completion_is_read_from_the_documented_shape() {
    let document = decode_body(
        "{\"id\":\"cmpl-9\",\"created\":12,\"extra\":true,\
         \"choices\":[{\"text\":\"a\",\"index\":0},{\"index\":1},{\"text\":null,\"index\":7}]}",
    )
    .unwrap();
    let completion = Completion::from_json(&document).unwrap();
    assert_eq!(completion.id, Some("cmpl-9".to_string()));
    assert_eq!(completion.created, 12);
    assert_eq!(completion.choices.len(), 3);
    assert_eq!(completion.choices[0].text, Some("a".to_string()));
    assert_eq!(completion.choices[0].index, 0);
    assert_eq!(completion.choices[1].text, None);
    assert_eq!(completion.choices[1].index, 1);
    assert_eq!(completion.choices[2].text, None);
    assert_eq!(completion.choices[2].index, 7);
}

#[test]
fn completion_without_id_and_choices_is_read() {
    let document = decode_body("{\"created\":0,\"choices\":[]}").unwrap();
    let completion = Completion::from_json(&document).unwrap();
    assert_eq!(completion.id, None);
    assert_eq!(completion.created, 0);
    assert!(completion.choices.is_empty());
}

#[test]
fn missing_required_field_is_an_error() {
    let expected = "response does not match the expected shape";
    let no_created = decode_body("{\"choices\":[]}").unwrap();
    assert_eq!(shape_error(Completion::from_json(&no_created)), expected);
    let no_choices = decode_body("{\"created\":1}").unwrap();
    assert_eq!(shape_error(Completion::from_json(&no_choices)), expected);
    let no_index = decode_body("{\"created\":1,\"choices\":[{\"text\":\"a\"}]}").unwrap();
    assert_eq!(shape_error(Completion::from_json(&no_index)), expected);
}

#[test]
fn field_of_another_type_is_an_error() {
    let expected = "response does not match the expected shape";
    let cases = [
        "{\"created\":\"now\",\"choices\":[]}",
        "{\"created\":-1,\"choices\":[]}",
        "{\"created\":1.5,\"choices\":[]}",
        "{\"created\":1,\"choices\":{}}",
        "{\"created\":1,\"choices\":[{\"text\":5,\"index\":0}]}",
        "{\"id\":3,\"created\":1,\"choices\":[]}",
        "[1,2]",
        "null",
    ];
    for text in cases {
        let document = decode_body(text).unwrap();
        assert_eq!(shape_error(Completion::from_json(&document)), expected);
    }
}

#[test]
fn choice_is_read_alone() {
    let document = decode_body("{\"text\":\"week\",\"index\":4}").unwrap();
    let choice = Choice::from_json(&document).unwrap();
    assert_eq!(choice.text, Some("week".to_string()));
    assert_eq!(choice.index, 4);
    let bare = decode_body("{\"text\":\"week\"}").unwrap();
    assert!(Choice::from_json(&bare).is_none());
}

#[test]
fn edit_response_passes_a_failure_on() {
    let result = edit_response(Reply::Failure("Dns Failed".to_string()));
    assert_eq!(shape_error(result), "Dns Failed");
}

#[test]
fn edit_response_reports_a_malformed_body() {
    let result = edit_response(Reply::Body("not json".to_string()));
    assert_eq!(shape_error(result), "expected ident at line 1 column 2");
}

#[test]
fn edit_response_reports_an_error_envelope_as_wrong_shape() {
    let answer = "{\"error\":{\"message\":\"Incorrect API key\",\"type\":\"invalid_request_error\"}}";
    let result = edit_response(Reply::Body(answer.to_string()));
    assert_eq!(shape_error(result), "response does not match the expected shape");
}
