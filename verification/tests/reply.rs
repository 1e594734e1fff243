use gptcli::{
    decode_response, parse_response, CompletionChoice, CompletionResponse, Fault, Field, Message,
    UsageStats,
};

const REPLY: &str = "{\"id\":\"chatcmpl-7\",\"object\":\"chat.completion\",\"created\":1677652288,\
\"model\":\"gpt-x\",\"usage\":{\"prompt_tokens\":3,\"completion_tokens\":1,\"total_tokens\":4},\
\"choices\":[{\"message\":{\"role\":\"assistant\",\"content\":\"hello\"},\
\"finish_reason\":\"stop\",\"index\":0}]}";

fn reply_with(field: &str, value: &str) -> String {
    let mut document: serde_json::Value = serde_json::from_str(REPLY).unwrap();
    let replacement: serde_json::Value = serde_json::from_str(value).unwrap();
    document.as_object_mut().unwrap().insert(field.to_string(), replacement);
    document.to_string()
}

fn reply_without(field: &str) -> String {
    let mut document: serde_json::Value = serde_json::from_str(REPLY).unwrap();
    document.as_object_mut().unwrap().remove(field);
    document.to_string()
}

fn fault_of(reply: &str) -> Fault {
    parse_response(reply).unwrap_err().fault
}

#[test]
fn valid_reply_gives_its_fields_exactly() {
    let response = parse_response(REPLY).unwrap();
    let expected = CompletionResponse {
        id: "chatcmpl-7".to_string(),
        object: "chat.completion".to_string(),
        created: 1677652288,
        model: "gpt-x".to_string(),
        usage: UsageStats { prompt_tokens: 3, completion_tokens: 1, total_tokens: 4 },
        choices: vec![CompletionChoice {
            message: Message { role: "assistant".to_string(), content: "hello".to_string() },
            finish_reason: "stop".to_string(),
            index: 0,
        }],
    };
    assert_eq!(response, expected);
}

#[test]
fn reply_is_read_whatever_the_order_and_the_spacing() {
    let text = " {\n \"choices\" : [ ],\n \"usage\" : { \"total_tokens\" : 9, \"completion_tokens\" : 4,\
 \"prompt_tokens\" : 5 },\n \"model\" : \"m\", \"created\" : -1, \"object\" : \"o\", \"id\" : \"i\" }\n";
    let response = parse_response(text).unwrap();
    assert_eq!(response.id, "i");
    assert_eq!(response.object, "o");
    assert_eq!(response.created, -1);
    assert_eq!(response.model, "m");
    assert_eq!(
        response.usage,
        UsageStats { prompt_tokens: 5, completion_tokens: 4, total_tokens: 9 }
    );
    assert!(response.choices.is_empty());
}

#[test]
fn fields_that_the_schema_does_not_know_are_passed_over() {
    let text = reply_with("system_fingerprint", "{\"a\":[1,2.5,null,true]}");
    assert_eq!(parse_response(&text).unwrap(), parse_response(REPLY).unwrap());
}

#[test]
fn inbound_role_may_be_any_string() {
    let text = reply_with(
        "choices",
        "[{\"message\":{\"role\":\"narrator\",\"content\":\"\"},\"finish_reason\":\"length\",\"index\":3}]",
    );
    let response = parse_response(&text).unwrap();
    assert_eq!(response.choices.len(), 1);
    assert_eq!(response.choices[0].message.role, "narrator");
    assert_eq!(response.choices[0].message.content, "");
    assert_eq!(response.choices[0].finish_reason, "length");
    assert_eq!(response.choices[0].index, 3);
}

#[test]
fn choices_keep_their_order() {
    let text = reply_with(
        "choices",
        "[{\"message\":{\"role\":\"assistant\",\"content\":\"first\"},\"finish_reason\":\"stop\",\"index\":1},\
          {\"message\":{\"role\":\"assistant\",\"content\":\"second\"},\"finish_reason\":\"stop\",\"index\":0},\
          {\"message\":{\"role\":\"assistant\",\"content\":\"third\"},\"finish_reason\":\"stop\",\"index\":2}]",
    );
    let response = parse_response(&text).unwrap();
    let contents: Vec<&str> =
        response.choices.iter().map(|choice| choice.message.content.as_str()).collect();
    assert_eq!(contents, vec!["first", "second", "third"]);
    let indices: Vec<i64> = response.choices.iter().map(|choice| choice.index).collect();
    assert_eq!(indices, vec![1, 0, 2]);
}

#[test]
fn usage_numbers_are_taken_as_they_come() {
    let text = reply_with(
        "usage",
        "{\"prompt_tokens\":3,\"completion_tokens\":1,\"total_tokens\":100}",
    );
    let response = parse_response(&text).unwrap();
    assert_eq!(response.usage.total_tokens, 100);
}

#[test]
fn text_that_is_not_json_is_refused() {
    for text in ["", "not json", "{\"id\":", "{\"id\":\"a\"} trailing", "<html></html>"] {
        let error = parse_response(text).unwrap_err();
        assert_eq!(error.fault, Fault::Syntax);
        assert_eq!(error.raw, text);
        assert!(!error.detail.is_empty());
        assert_eq!(error.to_string(), error.detail);
    }
}

#[test]
fn reply_without_choices_is_refused() {
    let text = reply_without("choices");
    let error = parse_response(&text).unwrap_err();
    assert_eq!(error.fault, Fault::Missing(Field::Choices));
    assert_eq!(error.raw, text);
    assert_eq!(error.detail, "missing field `choices`");
    assert_eq!(error.to_string(), "missing field `choices`");
}

#[test]
fn reply_without_any_one_field_is_refused() {
    assert_eq!(fault_of(&reply_without("id")), Fault::Missing(Field::Id));
    assert_eq!(fault_of(&reply_without("object")), Fault::Missing(Field::Object));
    assert_eq!(fault_of(&reply_without("created")), Fault::Missing(Field::Created));
    assert_eq!(fault_of(&reply_without("model")), Fault::Missing(Field::Model));
    assert_eq!(fault_of(&reply_without("usage")), Fault::Missing(Field::Usage));
    assert_eq!(fault_of(&reply_without("choices")), Fault::Missing(Field::Choices));
}

#[test]
fn error_object_of_the_service_is_refused() {
    let text = "{\"error\":{\"message\":\"Incorrect API key\",\"type\":\"invalid_request_error\"}}";
    let error = parse_response(text).unwrap_err();
    assert_eq!(error.fault, Fault::Missing(Field::Id));
    assert_eq!(error.raw, text);
}

#[test]
fn reply_that_is_no_object_is_refused() {
    for text in ["[]", "\"id\"", "3", "null", "true", "[\"a\",\"b\",1,\"m\",[3,1,4],[]]"] {
        assert_eq!(fault_of(text), Fault::Mistyped(Field::Document));
    }
}

#[test]
fn value_of_another_kind_is_refused() {
    assert_eq!(fault_of(&reply_with("id", "7")), Fault::Mistyped(Field::Id));
    assert_eq!(fault_of(&reply_with("object", "null")), Fault::Mistyped(Field::Object));
    assert_eq!(fault_of(&reply_with("created", "\"now\"")), Fault::Mistyped(Field::Created));
    assert_eq!(fault_of(&reply_with("model", "[\"m\"]")), Fault::Mistyped(Field::Model));
    assert_eq!(fault_of(&reply_with("usage", "[3,1,4]")), Fault::Mistyped(Field::Usage));
    assert_eq!(fault_of(&reply_with("choices", "{}")), Fault::Mistyped(Field::Choices));
}

#[test]
fn timestamp_must_be_an_integer_of_64_bits() {
    assert_eq!(parse_response(&reply_with("created", "0")).unwrap().created, 0);
    assert_eq!(
        parse_response(&reply_with("created", "9223372036854775807")).unwrap().created,
        i64::MAX
    );
    assert_eq!(
        parse_response(&reply_with("created", "-9223372036854775808")).unwrap().created,
        i64::MIN
    );
    assert_eq!(
        fault_of(&reply_with("created", "9223372036854775808")),
        Fault::Mistyped(Field::Created)
    );
    assert_eq!(fault_of(&reply_with("created", "1.5")), Fault::Mistyped(Field::Created));
    assert_eq!(fault_of(&reply_with("created", "1e3")), Fault::Mistyped(Field::Created));
}

#[test]
fn usage_must_hold_its_three_numbers() {
    assert_eq!(
        fault_of(&reply_with("usage", "{\"completion_tokens\":1,\"total_tokens\":4}")),
        Fault::Missing(Field::PromptTokens)
    );
    assert_eq!(
        fault_of(&reply_with("usage", "{\"prompt_tokens\":3,\"total_tokens\":4}")),
        Fault::Missing(Field::CompletionTokens)
    );
    assert_eq!(
        fault_of(&reply_with("usage", "{\"prompt_tokens\":3,\"completion_tokens\":1}")),
        Fault::Missing(Field::TotalTokens)
    );
    assert_eq!(
        fault_of(&reply_with(
            "usage",
            "{\"prompt_tokens\":3,\"completion_tokens\":\"1\",\"total_tokens\":4}"
        )),
        Fault::Mistyped(Field::CompletionTokens)
    );
    assert_eq!(
        fault_of(&reply_with(
            "usage",
            "{\"promptTokens\":3,\"completionTokens\":1,\"totalTokens\":4}"
        )),
        Fault::Missing(Field::PromptTokens)
    );
}

#[test]
fn choice_must_hold_its_three_fields() {
    let message = "{\"role\":\"assistant\",\"content\":\"hello\"}";
    let cases = [
        ("[7]".to_string(), Fault::Mistyped(Field::Choices)),
        ("[{\"finish_reason\":\"stop\",\"index\":0}]".to_string(), Fault::Missing(Field::Message)),
        (
            "[{\"message\":\"hello\",\"finish_reason\":\"stop\",\"index\":0}]".to_string(),
            Fault::Mistyped(Field::Message),
        ),
        (
            "[{\"message\":{\"content\":\"hello\"},\"finish_reason\":\"stop\",\"index\":0}]"
                .to_string(),
            Fault::Missing(Field::Role),
        ),
        (
            "[{\"message\":{\"role\":\"assistant\"},\"finish_reason\":\"stop\",\"index\":0}]"
                .to_string(),
            Fault::Missing(Field::Content),
        ),
        (
            "[{\"message\":{\"role\":1,\"content\":\"hello\"},\"finish_reason\":\"stop\",\"index\":0}]"
                .to_string(),
            Fault::Mistyped(Field::Role),
        ),
        (format!("[{{\"message\":{},\"index\":0}}]", message), Fault::Missing(Field::FinishReason)),
        (
            format!("[{{\"message\":{},\"finishReason\":\"stop\",\"index\":0}}]", message),
            Fault::Missing(Field::FinishReason),
        ),
        (
            format!("[{{\"message\":{},\"finish_reason\":null,\"index\":0}}]", message),
            Fault::Mistyped(Field::FinishReason),
        ),
        (
            format!("[{{\"message\":{},\"finish_reason\":\"stop\"}}]", message),
            Fault::Missing(Field::Index),
        ),
        (
            format!("[{{\"message\":{},\"finish_reason\":\"stop\",\"index\":0.5}}]", message),
            Fault::Mistyped(Field::Index),
        ),
    ];
    for (choices, fault) in cases {
        assert_eq!(fault_of(&reply_with("choices", &choices)), fault, "choices: {}", choices);
    }
}

#[test]
fn first_fault_in_schema_order_is_reported() {
    let mut document: serde_json::Value = serde_json::from_str(REPLY).unwrap();
    let table = document.as_object_mut().unwrap();
    table.remove("choices");
    table.remove("model");
    table.insert("object".to_string(), serde_json::Value::Null);
    assert_eq!(fault_of(&document.to_string()), Fault::Mistyped(Field::Object));
}

#[test]
fn first_refused_choice_gives_the_fault() {
    let good = "{\"message\":{\"role\":\"assistant\",\"content\":\"hello\"},\"finish_reason\":\"stop\",\"index\":0}";
    let no_index = "{\"message\":{\"role\":\"assistant\",\"content\":\"hello\"},\"finish_reason\":\"stop\"}";
    let no_message = "{\"finish_reason\":\"stop\",\"index\":0}";
    let choices = format!("[{},{},{},{}]", good, no_index, no_message, good);
    assert_eq!(fault_of(&reply_with("choices", &choices)), Fault::Missing(Field::Index));
}

#[test]
fn refused_reply_gives_no_default_response() {
    let texts = [reply_without("choices"), reply_without("usage"), "{}".to_string()];
    for text in texts {
        match parse_response(&text) {
            Ok(response) => panic!("a response was made: {:?}", response),
            Err(error) => assert_eq!(error.raw, text),
        }
    }
}

#[test]
fn decode_response_reads_a_parsed_document() {
    let mut message = serde_json::Map::new();
    message.insert("role".to_string(), serde_json::Value::String("assistant".to_string()));
    message.insert("content".to_string(), serde_json::Value::String("hello".to_string()));
    let mut choice = serde_json::Map::new();
    choice.insert("message".to_string(), serde_json::Value::Object(message));
    choice.insert("finish_reason".to_string(), serde_json::Value::String("stop".to_string()));
    choice.insert("index".to_string(), serde_json::Value::from(0));
    let mut usage = serde_json::Map::new();
    usage.insert("prompt_tokens".to_string(), serde_json::Value::from(3));
    usage.insert("completion_tokens".to_string(), serde_json::Value::from(1));
    usage.insert("total_tokens".to_string(), serde_json::Value::from(4));
    let mut root = serde_json::Map::new();
    root.insert("id".to_string(), serde_json::Value::String("chatcmpl-7".to_string()));
    root.insert("object".to_string(), serde_json::Value::String("chat.completion".to_string()));
    root.insert("created".to_string(), serde_json::Value::from(1677652288));
    root.insert("model".to_string(), serde_json::Value::String("gpt-x".to_string()));
    root.insert("usage".to_string(), serde_json::Value::Object(usage));
    root.insert(
        "choices".to_string(),
        serde_json::Value::Array(vec![serde_json::Value::Object(choice)]),
    );
    let document = serde_json::Value::Object(root.clone());
    assert_eq!(decode_response(&document).unwrap(), parse_response(REPLY).unwrap());

    root.insert("created".to_string(), serde_json::Value::from(u64::MAX));
    assert_eq!(
        decode_response(&serde_json::Value::Object(root)).unwrap_err(),
        Fault::Mistyped(Field::Created)
    );
    assert_eq!(
        decode_response(&serde_json::Value::Null).unwrap_err(),
        Fault::Mistyped(Field::Document)
    );
}

#[test]
fn defaults_are_empty() {
    let response = CompletionResponse::default();
    assert_eq!(response.id, "");
    assert_eq!(response.object, "");
    assert_eq!(response.created, 0);
    assert_eq!(response.model, "");
    assert_eq!(
        response.usage,
        UsageStats { prompt_tokens: 0, completion_tokens: 0, total_tokens: 0 }
    );
    assert!(response.choices.is_empty());
    assert_eq!(
        UsageStats::default(),
        UsageStats { prompt_tokens: 0, completion_tokens: 0, total_tokens: 0 }
    );
    let choice = CompletionChoice::default();
    assert_eq!(choice.message, Message::default());
    assert_eq!(choice.finish_reason, "");
    assert_eq!(choice.index, 0);
    assert_eq!(Message::default(), Message { role: String::new(), content: String::new() });
}
