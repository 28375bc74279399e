use sqs_mock::api::helpers::{
    compute_md5, extract_from_extra, extract_queue_name_from_url, generate_random_uuid4,
    get_attributes, get_pair, get_tags, pivot, put_pair, queue_url, ParamValues,
    ATTRIBUTE_PATTERN, TAG_PATTERN,
};
use sqs_mock::api::receive_message::{
    begin, clamp_max, default_max_number, poll, respond, show, PollStep, ReceiveMessageParams,
    ReceiveMessageResponse, EMPTY_ANSWER, POLL_INTERVAL,
};
use sqs_mock::api::{
    action_field, change_message_visibility, create_queue, delete_message, find_action,
    get_action_name, get_queue_attributes, get_queue_url, list_queues, post_handler,
    receive_message, route, send_message, set_queue_attributes, Action, ApiError, Param,
};
use sqs_mock::queue::Message;
use sqs_mock::registry::Registry;

const HOST: &str = "http://localhost:9324";

fn registry_with(names: &[&str]) -> Registry {
    let mut registry = Registry::new();
    for name in names {
        assert!(registry.create(name, vec![], None));
    }
    registry
}

fn body(fields: &[(&str, &str)]) -> Vec<u8> {
    let mut out = String::new();
    for (i, (k, v)) in fields.iter().enumerate() {
        if i > 0 {
            out.push('&');
        }
        out.push_str(k);
        out.push('=');
        for b in v.bytes() {
            if b.is_ascii_alphanumeric() || b == b'-' || b == b'.' || b == b'_' {
                out.push(b as char);
            } else {
                out.push_str(&format!("%{:02X}", b));
            }
        }
    }
    out.into_bytes()
}

fn url(name: &str) -> String {
    format!("{}/{}", HOST, name)
}

fn send(registry: &mut Registry, queue: &str, text: &str, now: u64) -> String {
    let payload = body(&[("Action", "SendMessage"), ("QueueUrl", &url(queue)), ("MessageBody", text)]);
    send_message::process(registry, &payload, now).unwrap().message_id
}

fn receive_now(
    registry: &mut Registry,
    fields: &[(&str, &str)],
    now: u64,
) -> Vec<receive_message::MessageXml> {
    match receive_message::process(registry, &body(fields), now) {
        Ok(PollStep::Done(ReceiveMessageResponse::Messages { messages, .. })) => messages,
        Ok(PollStep::Done(ReceiveMessageResponse::Empty)) => vec![],
        other => panic!("unexpected outcome: {:?}", other),
    }
}

fn attribute<'a>(attrs: &'a [receive_message::AttributeXml], name: &str) -> Option<&'a str> {
    attrs.iter().find(|a| a.name == name).map(|a| a.value.as_str())
}

// ---- routing ----

#[test]
fn action_comes_from_header_before_body() {
    let payload = body(&[("Action", "SendMessage")]);
    assert_eq!(get_action_name(Some("ListQueues"), &payload).as_deref(), Some("ListQueues"));
    assert_eq!(get_action_name(None, &payload).as_deref(), Some("SendMessage"));
}

#[test]
fn action_missing_or_repeated_in_body_is_none() {
    assert_eq!(get_action_name(None, &body(&[("QueueName", "q")])), None);
    assert_eq!(get_action_name(None, b""), None);
    assert_eq!(get_action_name(None, &body(&[("Action", "A"), ("Action", "B")])), None);
    let form = vec![("Action".to_owned(), "X".to_owned())];
    assert_eq!(action_field(&form).as_deref(), Some("X"));
}

#[test]
fn every_action_is_found_in_any_case() {
    let all = [
        ("CreateQueue", Action::CreateQueue),
        ("ListQueues", Action::ListQueues),
        ("SendMessage", Action::SendMessage),
        ("ReceiveMessage", Action::ReceiveMessage),
        ("DeleteMessage", Action::DeleteMessage),
        ("ChangeMessageVisibility", Action::ChangeMessageVisibility),
        ("GetQueueUrl", Action::GetQueueUrl),
        ("GetQueueAttributes", Action::GetQueueAttributes),
        ("SetQueueAttributes", Action::SetQueueAttributes),
    ];
    for (name, action) in all {
        assert_eq!(find_action(name), Some(action));
        assert_eq!(find_action(&name.to_uppercase()), Some(action));
        assert_eq!(find_action(&name.to_lowercase()), Some(action));
        assert_eq!(find_action(&format!("AmazonSQS.{}", name)), Some(action));
        assert_eq!(find_action(&format!("amazonsqs.{}", name.to_lowercase())), Some(action));
        assert!(action.is_named_by(name));
        assert_eq!(action.lower_name(), name.to_lowercase());
        assert_eq!(action.prefixed_name(), format!("amazonsqs.{}", name.to_lowercase()));
    }
    assert_eq!(find_action("DeleteQueue"), None);
    assert_eq!(find_action(""), None);
    assert_eq!(find_action("SendMessage "), None);
    assert_eq!(find_action("AmazonSQS.AmazonSQS.SendMessage"), None);
}

#[test]
fn post_handler_routes_body_action() {
    let payload = body(&[("Action", "SendMessage"), ("QueueUrl", "x")]);
    assert_eq!(post_handler(None, &payload).unwrap(), Action::SendMessage);
    let payload = body(&[("Action", "AmazonSQS.ReceiveMessage")]);
    assert_eq!(post_handler(None, &payload).unwrap(), Action::ReceiveMessage);
    let payload = body(&[("Action", "receivemessage")]);
    assert_eq!(post_handler(None, &payload).unwrap(), Action::ReceiveMessage);
}

#[test]
fn post_handler_refuses_json_protocol_header() {
    let r = post_handler(Some("AmazonSQS.SendMessage"), b"{}");
    assert!(matches!(r, Err(ApiError::JsonNotSupported)));
    let r = post_handler(Some("AmazonSQSwhatever"), b"");
    assert!(matches!(r, Err(ApiError::JsonNotSupported)));
}

#[test]
fn post_handler_accepts_header_without_json_prefix() {
    assert_eq!(post_handler(Some("SendMessage"), b"").unwrap(), Action::SendMessage);
    assert_eq!(post_handler(Some("amazonsqs.sendmessage"), b"").unwrap(), Action::SendMessage);
}

#[test]
fn post_handler_invalid_action() {
    assert!(matches!(post_handler(None, b""), Err(ApiError::InvalidAction)));
    assert!(matches!(post_handler(None, &body(&[("Action", "Nope")])), Err(ApiError::InvalidAction)));
    assert!(matches!(post_handler(Some("Nope"), b""), Err(ApiError::InvalidAction)));
    assert!(matches!(route(false, None), Err(ApiError::InvalidAction)));
    assert!(matches!(route(true, Some("AmazonSQS.ListQueues")), Err(ApiError::JsonNotSupported)));
    assert_eq!(route(false, Some("AmazonSQS.ListQueues")).unwrap(), Action::ListQueues);
}

// ---- errors ----

#[test]
fn error_status_and_message() {
    let cases: Vec<(ApiError, u16, &str)> = vec![
        (ApiError::InvalidAction, 400, "Invalid action"),
        (ApiError::JsonNotSupported, 400, "JSON is not supported yet"),
        (ApiError::MalformedBody, 400, "Failed to parse payload: the body is not a form"),
        (
            ApiError::MissingParameter(Param::QueueUrl),
            400,
            "Failed to parse payload: missing field QueueUrl",
        ),
        (
            ApiError::RepeatedParameter(Param::MessageBody),
            400,
            "Failed to parse payload: duplicate field MessageBody",
        ),
        (
            ApiError::InvalidParameter(Param::VisibilityTimeout),
            400,
            "Failed to parse payload: invalid value for VisibilityTimeout",
        ),
        (ApiError::InvalidQueueUrl, 400, "Invalid QueueUrl: could not extract queue name"),
        (ApiError::NoAttributes, 400, "No attributes provided"),
        (
            ApiError::NonExistentQueue("foo".to_owned()),
            400,
            "AWS.SimpleQueueService.NonExistentQueue; Queue: foo",
        ),
        (
            ApiError::InvalidReceiptHandle,
            400,
            "ReceiptHandleIsInvalid; The input receipt handle is not a valid receipt handle.",
        ),
        (ApiError::Internal("Failed to serialize response: x".to_owned()), 500, "Failed to serialize response: x"),
    ];
    for (error, status, message) in cases {
        assert_eq!(error.status(), status);
        assert_eq!(error.message(), message);
    }
}

#[test]
fn param_names() {
    assert_eq!(Param::Action.name(), "Action");
    assert_eq!(Param::QueueName.name(), "QueueName");
    assert_eq!(Param::QueueNamePrefix.name(), "QueueNamePrefix");
    assert_eq!(Param::QueueUrl.name(), "QueueUrl");
    assert_eq!(Param::MessageBody.name(), "MessageBody");
    assert_eq!(Param::DelaySeconds.name(), "DelaySeconds");
    assert_eq!(Param::MaxNumberOfMessages.name(), "MaxNumberOfMessages");
    assert_eq!(Param::WaitTimeSeconds.name(), "WaitTimeSeconds");
    assert_eq!(Param::VisibilityTimeout.name(), "VisibilityTimeout");
    assert_eq!(Param::ReceiptHandle.name(), "ReceiptHandle");
}

// ---- helpers ----

#[test]
fn queue_name_is_what_follows_the_last_slash() {
    assert_eq!(extract_queue_name_from_url("http://localhost:9324/q1").as_deref(), Some("q1"));
    assert_eq!(extract_queue_name_from_url("http://h/123456/my-queue").as_deref(), Some("my-queue"));
    assert_eq!(extract_queue_name_from_url("/q").as_deref(), Some("q"));
    assert_eq!(extract_queue_name_from_url("h/\u{e9}t\u{e9}").as_deref(), Some("\u{e9}t\u{e9}"));
}

#[test]
fn queue_url_without_name_is_refused() {
    assert_eq!(extract_queue_name_from_url("http://localhost:9324/"), None);
    assert_eq!(extract_queue_name_from_url("q1"), None);
    assert_eq!(extract_queue_name_from_url(""), None);
}

#[test]
fn queue_url_is_host_slash_name() {
    assert_eq!(queue_url("http://localhost:9324", "q1"), "http://localhost:9324/q1");
    assert_eq!(
        extract_queue_name_from_url(&queue_url(HOST, "orders")).as_deref(),
        Some("orders")
    );
}

#[test]
fn md5_of_hello() {
    assert_eq!(compute_md5("hello"), "5d41402abc4b2a76b9719d911017c592");
    assert_eq!(compute_md5(""), "d41d8cd98f00b204e9800998ecf8427e");
}

#[test]
fn uuid_has_version_4_shape_and_varies() {
    let a = generate_random_uuid4();
    let b = generate_random_uuid4();
    assert_eq!(a.len(), 36);
    let bytes = a.as_bytes();
    assert_eq!(bytes[8], b'-');
    assert_eq!(bytes[13], b'-');
    assert_eq!(bytes[14], b'4');
    assert_eq!(bytes[18], b'-');
    assert!(b"89ab".contains(&bytes[19]));
    assert_eq!(bytes[23], b'-');
    assert!(a.chars().all(|c| c == '-' || c.is_ascii_digit() || ('a'..='f').contains(&c)));
    assert_ne!(a, b);
}

fn pairs(items: &[(&str, &str)]) -> Vec<(String, String)> {
    items.iter().map(|(k, v)| (k.to_string(), v.to_string())).collect()
}

#[test]
fn indexed_entries_are_picked_by_pattern() {
    let form = pairs(&[
        ("QueueUrl", "x"),
        ("Attribute.1.Name", "VisibilityTimeout"),
        ("attribute.1.value", "60"),
        ("Attribute.x.Name", "no index"),
        ("Attribute.2.", "no field"),
        ("XAttribute.3.Name", "not at the start"),
        ("Attribute.10.Na.me", "dots in field"),
    ]);
    let entries = extract_from_extra(ATTRIBUTE_PATTERN, &form);
    let seen: Vec<(&str, &str, &str)> =
        entries.iter().map(|e| (e.index.as_str(), e.field.as_str(), e.value.as_str())).collect();
    assert_eq!(
        seen,
        vec![
            ("1", "Name", "VisibilityTimeout"),
            ("1", "value", "60"),
            ("10", "Na.me", "dots in field"),
        ]
    );
    assert!(extract_from_extra(TAG_PATTERN, &form).is_empty());
    assert!(extract_from_extra("(", &form).is_empty());
}

fn entry(index: &str, field: &str, value: &str) -> ParamValues {
    ParamValues { index: index.to_owned(), field: field.to_owned(), value: value.to_owned() }
}

#[test]
fn attributes_pair_names_with_values_by_index() {
    let entries = vec![
        entry("2", "Value", "five"),
        entry("1", "Name", "DelaySeconds"),
        entry("2", "Name", "Policy"),
        entry("1", "Value", "5"),
        entry("3", "Name", "NoValue"),
        entry("4", "Value", "no name"),
    ];
    assert_eq!(
        get_attributes(&entries),
        pairs(&[("DelaySeconds", "5"), ("Policy", "five")])
    );
}

#[test]
fn attributes_last_occurrence_of_a_name_wins_in_first_place() {
    let entries = vec![
        entry("1", "Name", "A"),
        entry("1", "Value", "old"),
        entry("2", "Name", "B"),
        entry("2", "Value", "b"),
        entry("3", "Name", "A"),
        entry("3", "Value", "new"),
    ];
    assert_eq!(get_attributes(&entries), pairs(&[("A", "new"), ("B", "b")]));
}

#[test]
fn attributes_last_value_of_an_index_wins() {
    let entries =
        vec![entry("1", "Value", "first"), entry("1", "Name", "A"), entry("1", "VALUE", "second")];
    assert_eq!(get_attributes(&entries), pairs(&[("A", "second")]));
}

#[test]
fn tags_use_key_and_value_fields() {
    let form = pairs(&[("Tag.1.Key", "env"), ("Tag.1.Value", "dev"), ("Tag.2.Key", "team")]);
    let entries = extract_from_extra(TAG_PATTERN, &form);
    assert_eq!(get_tags(&entries), pairs(&[("env", "dev")]));
    assert_eq!(pivot(&entries, "key", "value"), pairs(&[("env", "dev")]));
    assert!(get_attributes(&entries).is_empty());
}

#[test]
fn put_and_get_pair() {
    let mut map = pairs(&[("a", "1"), ("b", "2")]);
    put_pair(&mut map, "a".to_owned(), "3".to_owned());
    put_pair(&mut map, "c".to_owned(), "4".to_owned());
    assert_eq!(map, pairs(&[("a", "3"), ("b", "2"), ("c", "4")]));
    assert_eq!(get_pair(&map, "b").map(|s| s.as_str()), Some("2"));
    assert_eq!(get_pair(&map, "z"), None);
}

// ---- CreateQueue, ListQueues, GetQueueUrl ----

#[test]
fn create_queue_registers_and_answers_with_url() {
    let mut registry = Registry::new();
    let payload = body(&[
        ("Action", "CreateQueue"),
        ("QueueName", "q1"),
        ("Attribute.1.Name", "VisibilityTimeout"),
        ("Attribute.1.Value", "45"),
        ("Attribute.2.Name", "DelaySeconds"),
        ("Attribute.2.Value", "0"),
        ("Tag.1.Key", "env"),
        ("Tag.1.Value", "dev"),
    ]);
    let done = create_queue::process(&mut registry, HOST, &payload).unwrap();
    assert_eq!(done.answer.queue_url, "http://localhost:9324/q1");
    assert_eq!(done.answer.request_id.len(), 36);
    assert_eq!(done.queue_name, "q1");
    assert_eq!(done.attributes, pairs(&[("VisibilityTimeout", "45"), ("DelaySeconds", "0")]));
    assert_eq!(registry.len(), 1);
    let queue = registry.queue(0);
    assert_eq!(queue.name(), "q1");
    assert_eq!(queue.visibility_timeout(), 45);
    assert_eq!(queue.tags().len(), 1);
    assert_eq!(queue.tags()[0].key(), "env");
    assert_eq!(queue.tags()[0].value(), "dev");
}

#[test]
fn create_queue_twice_keeps_the_first() {
    let mut registry = Registry::new();
    create_queue::process(&mut registry, HOST, &body(&[("QueueName", "q1")])).unwrap();
    send(&mut registry, "q1", "kept", 0);
    let again = body(&[
        ("QueueName", "q1"),
        ("Attribute.1.Name", "VisibilityTimeout"),
        ("Attribute.1.Value", "99"),
    ]);
    let done = create_queue::process(&mut registry, HOST, &again).unwrap();
    assert_eq!(done.answer.queue_url, "http://localhost:9324/q1");
    assert_eq!(registry.len(), 1);
    assert_eq!(registry.queue(0).visibility_timeout(), 30);
    assert_eq!(registry.queue(0).len(), 1);
}

#[test]
fn create_queue_needs_a_name() {
    let mut registry = Registry::new();
    let r = create_queue::process(&mut registry, HOST, &body(&[("Action", "CreateQueue")]));
    assert!(matches!(r, Err(ApiError::MissingParameter(Param::QueueName))));
    assert_eq!(registry.len(), 0);
}

#[test]
fn create_queue_ignores_timeout_that_is_no_number() {
    let mut registry = Registry::new();
    let payload = body(&[
        ("QueueName", "q1"),
        ("Attribute.1.Name", "VisibilityTimeout"),
        ("Attribute.1.Value", "soon"),
    ]);
    create_queue::process(&mut registry, HOST, &payload).unwrap();
    assert_eq!(registry.queue(0).visibility_timeout(), 30);
}

#[test]
fn list_queues_in_creation_order_with_prefix() {
    let registry = registry_with(&["orders", "audit", "orders-dlq"]);
    let all = list_queues::process(&registry, HOST, &body(&[("Action", "ListQueues")])).unwrap();
    assert_eq!(
        all.queue_urls,
        vec![
            "http://localhost:9324/orders",
            "http://localhost:9324/audit",
            "http://localhost:9324/orders-dlq"
        ]
    );
    let some =
        list_queues::process(&registry, HOST, &body(&[("QueueNamePrefix", "orders")])).unwrap();
    assert_eq!(
        some.queue_urls,
        vec!["http://localhost:9324/orders", "http://localhost:9324/orders-dlq"]
    );
    let none = list_queues::process(&registry, HOST, &body(&[("QueueNamePrefix", "x")])).unwrap();
    assert!(none.queue_urls.is_empty());
    assert_eq!(registry.list(), vec!["orders", "audit", "orders-dlq"]);
}

#[test]
fn get_queue_url_of_registered_queue() {
    let registry = registry_with(&["q1"]);
    let r = get_queue_url::process(&registry, HOST, &body(&[("QueueName", "q1")])).unwrap();
    assert_eq!(r.queue_url, "http://localhost:9324/q1");
    assert_eq!(r.request_id.len(), 36);
}

#[test]
fn get_queue_url_errors() {
    let registry = registry_with(&["q1"]);
    let r = get_queue_url::process(&registry, HOST, &body(&[("QueueName", "nope")]));
    match r {
        Err(ApiError::NonExistentQueue(name)) => assert_eq!(name, "nope"),
        other => panic!("unexpected outcome: {:?}", other),
    }
    let r = get_queue_url::process(&registry, HOST, &body(&[("Action", "GetQueueUrl")]));
    assert!(matches!(r, Err(ApiError::MissingParameter(Param::QueueName))));
    let r = get_queue_url::process(&registry, HOST, &body(&[("QueueName", "a"), ("QueueName", "b")]));
    assert!(matches!(r, Err(ApiError::RepeatedParameter(Param::QueueName))));
}

// ---- SendMessage ----

#[test]
fn send_message_appends_and_answers_with_md5() {
    let mut registry = registry_with(&["q1"]);
    let payload = body(&[("QueueUrl", &url("q1")), ("MessageBody", "hello")]);
    let r = send_message::process(&mut registry, &payload, 777).unwrap();
    assert_eq!(r.md5_of_message_body, "5d41402abc4b2a76b9719d911017c592");
    assert_eq!(r.message_id.len(), 36);
    assert_ne!(r.message_id, r.request_id);
    let stored = registry.queue(0).messages();
    assert_eq!(stored.len(), 1);
    assert_eq!(stored[0].id, r.message_id);
    assert_eq!(stored[0].message_body, "hello");
    assert_eq!(stored[0].visible_at, 777);
    assert_eq!(stored[0].receive_count, 0);
    assert_eq!(stored[0].receipt_handle, None);
}

#[test]
fn send_message_decodes_the_body_text() {
    let mut registry = registry_with(&["q1"]);
    let payload = format!("QueueUrl={}%2Fq1&MessageBody=a+b%26c%3D%C3%A9", "h").into_bytes();
    send_message::process(&mut registry, &payload, 0).unwrap();
    assert_eq!(registry.queue(0).messages()[0].message_body, "a b&c=\u{e9}");
}

#[test]
fn send_message_errors() {
    let mut registry = registry_with(&["q1"]);
    let r = send_message::process(&mut registry, &body(&[("MessageBody", "x")]), 0);
    assert!(matches!(r, Err(ApiError::MissingParameter(Param::QueueUrl))));
    let r = send_message::process(&mut registry, &body(&[("QueueUrl", &url("q1"))]), 0);
    assert!(matches!(r, Err(ApiError::MissingParameter(Param::MessageBody))));
    let r = send_message::process(
        &mut registry,
        &body(&[("QueueUrl", "no-slash"), ("MessageBody", "x")]),
        0,
    );
    assert!(matches!(r, Err(ApiError::InvalidQueueUrl)));
    let r = send_message::process(
        &mut registry,
        &body(&[("QueueUrl", &url("other")), ("MessageBody", "x")]),
        0,
    );
    match r {
        Err(ApiError::NonExistentQueue(name)) => assert_eq!(name, "other"),
        other => panic!("unexpected outcome: {:?}", other),
    }
    let r = send_message::process(
        &mut registry,
        &body(&[("QueueUrl", &url("q1")), ("MessageBody", "x"), ("DelaySeconds", "later")]),
        0,
    );
    assert!(matches!(r, Err(ApiError::InvalidParameter(Param::DelaySeconds))));
    assert_eq!(registry.queue(0).len(), 0);
}

#[test]
fn send_message_accepts_a_delay_and_ignores_it() {
    let mut registry = registry_with(&["q1"]);
    let payload = body(&[("QueueUrl", &url("q1")), ("MessageBody", "x"), ("DelaySeconds", "-5")]);
    let form = vec![
        ("QueueUrl".to_owned(), url("q1")),
        ("MessageBody".to_owned(), "x".to_owned()),
        ("DelaySeconds".to_owned(), "-5".to_owned()),
    ];
    assert_eq!(send_message::parse(&form).unwrap().delay_seconds, Some(-5));
    send_message::process(&mut registry, &payload, 100).unwrap();
    assert_eq!(registry.queue(0).messages()[0].visible_at, 100);
}

// ---- ReceiveMessage ----

#[test]
fn receive_parameters_and_defaults() {
    let form = pairs(&[("QueueUrl", "h/q")]);
    let p = receive_message::parse(&form).unwrap();
    assert_eq!(p.queue_url, "h/q");
    assert_eq!(p.max_number_of_messages, 1);
    assert_eq!(p.wait_time_seconds, 0);
    assert_eq!(p.visibility_timeout, None);
    assert_eq!(default_max_number(), 1);
    let form = pairs(&[
        ("VisibilityTimeout", "0"),
        ("WaitTimeSeconds", "20"),
        ("MaxNumberOfMessages", "+7"),
        ("QueueUrl", "h/q"),
        ("Unknown", "ignored"),
    ]);
    let p = receive_message::parse(&form).unwrap();
    assert_eq!(p.max_number_of_messages, 7);
    assert_eq!(p.wait_time_seconds, 20);
    assert_eq!(p.visibility_timeout, Some(0));
}

#[test]
fn receive_parameter_errors() {
    let r = receive_message::parse(&pairs(&[("MaxNumberOfMessages", "1")]));
    assert!(matches!(r, Err(ApiError::MissingParameter(Param::QueueUrl))));
    let r = receive_message::parse(&pairs(&[("QueueUrl", "h/q"), ("MaxNumberOfMessages", "ten")]));
    assert!(matches!(r, Err(ApiError::InvalidParameter(Param::MaxNumberOfMessages))));
    let r = receive_message::parse(&pairs(&[("QueueUrl", "h/q"), ("WaitTimeSeconds", "-1")]));
    assert!(matches!(r, Err(ApiError::InvalidParameter(Param::WaitTimeSeconds))));
    let r =
        receive_message::parse(&pairs(&[("QueueUrl", "h/q"), ("VisibilityTimeout", "4294967296")]));
    assert!(matches!(r, Err(ApiError::InvalidParameter(Param::VisibilityTimeout))));
    let r = receive_message::parse(&pairs(&[
        ("QueueUrl", "h/q"),
        ("WaitTimeSeconds", "1"),
        ("WaitTimeSeconds", "2"),
    ]));
    assert!(matches!(r, Err(ApiError::RepeatedParameter(Param::WaitTimeSeconds))));
}

#[test]
fn max_number_is_clamped_between_1_and_10() {
    assert_eq!(clamp_max(0), 1);
    assert_eq!(clamp_max(1), 1);
    assert_eq!(clamp_max(5), 5);
    assert_eq!(clamp_max(10), 10);
    assert_eq!(clamp_max(11), 10);
    assert_eq!(clamp_max(u32::MAX), 10);
}

#[test]
fn receive_returns_at_most_ten_and_at_least_one() {
    let mut registry = registry_with(&["q"]);
    for i in 0..12 {
        send(&mut registry, "q", &format!("m{}", i), 0);
    }
    let got =
        receive_now(&mut registry, &[("QueueUrl", &url("q")), ("MaxNumberOfMessages", "50")], 0);
    assert_eq!(got.len(), 10);
    let got =
        receive_now(&mut registry, &[("QueueUrl", &url("q")), ("MaxNumberOfMessages", "0")], 0);
    assert_eq!(got.len(), 1);
    assert_eq!(got[0].body, "m10");
    let got =
        receive_now(&mut registry, &[("QueueUrl", &url("q")), ("MaxNumberOfMessages", "3")], 0);
    assert_eq!(got.len(), 1);
    assert_eq!(got[0].body, "m11");
}

#[test]
fn begin_sets_deadline_and_clamps() {
    let params = ReceiveMessageParams {
        queue_url: url("q"),
        max_number_of_messages: 25,
        wait_time_seconds: 2,
        visibility_timeout: Some(9),
    };
    let state = begin(&params, 1_000).unwrap();
    assert_eq!(state.queue_name, "q");
    assert_eq!(state.max, 10);
    assert_eq!(state.visibility_timeout, Some(9));
    assert_eq!(state.deadline, 3_000);
    let bad = ReceiveMessageParams { queue_url: "q".to_owned(), ..params };
    assert!(matches!(begin(&bad, 0), Err(ApiError::InvalidQueueUrl)));
}

#[test]
fn shown_message_has_md5_and_attributes() {
    let mut m = Message::new_at("id-1".to_owned(), "hello".to_owned(), 0);
    let xml = show(&m);
    assert_eq!(xml.message_id, "id-1");
    assert_eq!(xml.receipt_handle, "");
    assert_eq!(xml.md5_of_body, "5d41402abc4b2a76b9719d911017c592");
    assert_eq!(xml.body, "hello");
    assert_eq!(xml.attributes.len(), 1);
    assert_eq!(attribute(&xml.attributes, "ApproximateReceiveCount"), Some("0"));
    m.mark_received("h".to_owned(), 1_700_000_000_123, 30);
    m.mark_received("h2".to_owned(), 1_700_000_090_000, 30);
    let xml = show(&m);
    assert_eq!(xml.receipt_handle, "h2");
    assert_eq!(xml.attributes.len(), 2);
    assert_eq!(xml.attributes[0].name, "ApproximateReceiveCount");
    assert_eq!(xml.attributes[0].value, "2");
    assert_eq!(xml.attributes[1].name, "ApproximateFirstReceiveTimestamp");
    assert_eq!(xml.attributes[1].value, "1700000000123");
}

#[test]
fn respond_to_nothing_is_the_empty_answer() {
    assert!(matches!(respond(&vec![]), ReceiveMessageResponse::Empty));
    assert_eq!(
        EMPTY_ANSWER,
        "<ReceiveMessageResponse><ReceiveMessageResult/></ReceiveMessageResponse>"
    );
    let one = vec![Message::new_at("a".to_owned(), "b".to_owned(), 0)];
    match respond(&one) {
        ReceiveMessageResponse::Messages { messages, request_id } => {
            assert_eq!(messages.len(), 1);
            assert_eq!(messages[0].message_id, "a");
            assert_eq!(request_id.len(), 36);
        }
        other => panic!("unexpected answer: {:?}", other),
    }
}

#[test]
fn receive_from_unknown_queue() {
    let mut registry = registry_with(&["q1"]);
    let r = receive_message::process(&mut registry, &body(&[("QueueUrl", &url("zz"))]), 0);
    match r {
        Err(ApiError::NonExistentQueue(name)) => assert_eq!(name, "zz"),
        other => panic!("unexpected outcome: {:?}", other),
    }
    let r = receive_message::process(&mut registry, &body(&[("QueueUrl", "zz")]), 0);
    assert!(matches!(r, Err(ApiError::InvalidQueueUrl)));
}

#[test]
fn md5_in_receive_equals_md5_in_send() {
    let mut registry = registry_with(&["q"]);
    let text = "The quick brown fox \u{1F98A} jumps";
    let payload = body(&[("QueueUrl", &url("q")), ("MessageBody", text)]);
    let sent = send_message::process(&mut registry, &payload, 0).unwrap();
    let got = receive_now(&mut registry, &[("QueueUrl", &url("q"))], 0);
    assert_eq!(got[0].md5_of_body, sent.md5_of_message_body);
    assert_eq!(got[0].md5_of_body, compute_md5(text));
    assert_eq!(got[0].body, text);
}

// ---- scenarios ----

#[test]
fn scenario_enqueue_receive_delete() {
    let mut registry = Registry::new();
    create_queue::process(&mut registry, HOST, &body(&[("QueueName", "q1")])).unwrap();
    let sent = send_message::process(
        &mut registry,
        &body(&[("QueueUrl", &url("q1")), ("MessageBody", "hello")]),
        1_000,
    )
    .unwrap();
    assert_eq!(sent.md5_of_message_body, "5d41402abc4b2a76b9719d911017c592");
    let got = receive_now(&mut registry, &[("QueueUrl", &url("q1"))], 1_001);
    assert_eq!(got.len(), 1);
    assert_eq!(got[0].body, "hello");
    assert_eq!(got[0].message_id, sent.message_id);
    let handle = got[0].receipt_handle.clone();
    assert_eq!(handle.len(), 36);
    let deleted = delete_message::process(
        &mut registry,
        &body(&[("QueueUrl", &url("q1")), ("ReceiptHandle", &handle)]),
    )
    .unwrap();
    assert_eq!(deleted.request_id.len(), 36);
    let r = receive_message::process(
        &mut registry,
        &body(&[("QueueUrl", &url("q1")), ("WaitTimeSeconds", "0")]),
        1_002,
    );
    assert!(matches!(r, Ok(PollStep::Done(ReceiveMessageResponse::Empty))));
    assert_eq!(registry.queue(0).len(), 0);
}

#[test]
fn scenario_visibility_timeout() {
    let mut registry = Registry::new();
    create_queue::process(&mut registry, HOST, &body(&[("QueueName", "q2")])).unwrap();
    assert_eq!(registry.queue(0).visibility_timeout(), 30);
    send(&mut registry, "q2", "a", 0);
    let fields = [("QueueUrl", url("q2")), ("VisibilityTimeout", "1".to_owned())];
    let fields: Vec<(&str, &str)> = fields.iter().map(|(k, v)| (*k, v.as_str())).collect();
    let first = receive_now(&mut registry, &fields, 10_000);
    assert_eq!(first.len(), 1);
    assert_eq!(first[0].body, "a");
    assert_eq!(attribute(&first[0].attributes, "ApproximateReceiveCount"), Some("1"));
    assert!(receive_now(&mut registry, &fields, 10_000).is_empty());
    let again = receive_now(&mut registry, &fields, 11_200);
    assert_eq!(again.len(), 1);
    assert_eq!(again[0].body, "a");
    assert_ne!(again[0].receipt_handle, first[0].receipt_handle);
    assert_eq!(attribute(&again[0].attributes, "ApproximateReceiveCount"), Some("2"));
    assert_eq!(attribute(&again[0].attributes, "ApproximateFirstReceiveTimestamp"), Some("10000"));
}

#[test]
fn scenario_change_visibility_to_zero() {
    let mut registry = registry_with(&["q2"]);
    send(&mut registry, "q2", "a", 0);
    let first = receive_now(&mut registry, &[("QueueUrl", &url("q2")), ("VisibilityTimeout", "1")], 0);
    let h1 = first[0].receipt_handle.clone();
    let changed = change_message_visibility::process(
        &mut registry,
        &body(&[("QueueUrl", &url("q2")), ("ReceiptHandle", &h1), ("VisibilityTimeout", "0")]),
        0,
    )
    .unwrap();
    assert_eq!(changed.request_id.len(), 36);
    let second = receive_now(&mut registry, &[("QueueUrl", &url("q2"))], 0);
    assert_eq!(second.len(), 1);
    assert_eq!(second[0].body, "a");
    assert_eq!(attribute(&second[0].attributes, "ApproximateReceiveCount"), Some("2"));
    assert_ne!(second[0].receipt_handle, h1);
    let r = delete_message::process(
        &mut registry,
        &body(&[("QueueUrl", &url("q2")), ("ReceiptHandle", &h1)]),
    );
    match r {
        Err(e) => {
            assert!(matches!(e, ApiError::InvalidReceiptHandle));
            assert!(e.message().starts_with("ReceiptHandleIsInvalid"));
            assert_eq!(e.status(), 400);
        }
        Ok(_) => panic!("a stale handle deleted a message"),
    }
    assert_eq!(registry.queue(0).len(), 1);
}

#[test]
fn scenario_long_poll() {
    let mut registry = registry_with(&["q3"]);
    let request = body(&[("QueueUrl", &url("q3")), ("WaitTimeSeconds", "2")]);
    let mut state = match receive_message::process(&mut registry, &request, 0).unwrap() {
        PollStep::Wait { poll, millis } => {
            assert_eq!(millis, 200);
            assert_eq!(poll.deadline, 2_000);
            poll
        }
        other => panic!("unexpected outcome: {:?}", other),
    };
    let mut now = 200;
    state = match poll(&mut registry, state, now).unwrap() {
        PollStep::Wait { poll, millis } => {
            assert_eq!(millis, 200);
            poll
        }
        other => panic!("unexpected outcome: {:?}", other),
    };
    now += 200;
    state = match poll(&mut registry, state, now).unwrap() {
        PollStep::Wait { poll, .. } => poll,
        other => panic!("unexpected outcome: {:?}", other),
    };
    send(&mut registry, "q3", "x", 500);
    now += 200;
    match poll(&mut registry, state, now).unwrap() {
        PollStep::Done(ReceiveMessageResponse::Messages { messages, .. }) => {
            assert_eq!(messages.len(), 1);
            assert_eq!(messages[0].body, "x");
        }
        other => panic!("unexpected outcome: {:?}", other),
    }
    assert!(now - 500 <= 800);
}

#[test]
fn long_poll_ends_empty_at_the_deadline() {
    let mut registry = registry_with(&["q3"]);
    let request = body(&[("QueueUrl", &url("q3")), ("WaitTimeSeconds", "1")]);
    let mut state = match receive_message::process(&mut registry, &request, 5_000).unwrap() {
        PollStep::Wait { poll, .. } => poll,
        other => panic!("unexpected outcome: {:?}", other),
    };
    // 150 ms before the deadline the sleep is cut short.
    state = match poll(&mut registry, state, 5_850).unwrap() {
        PollStep::Wait { poll, millis } => {
            assert_eq!(millis, 150);
            poll
        }
        other => panic!("unexpected outcome: {:?}", other),
    };
    assert_eq!(POLL_INTERVAL, 200);
    let r = poll(&mut registry, state, 6_000).unwrap();
    assert!(matches!(r, PollStep::Done(ReceiveMessageResponse::Empty)));
}

#[test]
fn poll_on_a_queue_that_is_gone() {
    let mut registry = registry_with(&["q3"]);
    let params = ReceiveMessageParams {
        queue_url: url("other"),
        max_number_of_messages: 1,
        wait_time_seconds: 5,
        visibility_timeout: None,
    };
    let state = begin(&params, 0).unwrap();
    assert!(matches!(poll(&mut registry, state, 0), Err(ApiError::NonExistentQueue(_))));
}

#[test]
fn scenario_get_queue_attributes_all() {
    let mut registry = Registry::new();
    create_queue::process(&mut registry, HOST, &body(&[("QueueName", "q4")])).unwrap();
    for text in ["one", "two", "three"] {
        send(&mut registry, "q4", text, 0);
    }
    let request = body(&[("Action", "GetQueueAttributes"), ("QueueUrl", &url("q4"))]);
    assert_eq!(get_queue_attributes::target_queue(&request).unwrap(), "q4");
    let r = get_queue_attributes::process(&registry, &request, 0, &vec![]).unwrap();
    assert_eq!(attribute(&r.attributes, "ApproximateNumberOfMessages"), Some("3"));
    assert_eq!(attribute(&r.attributes, "ApproximateNumberOfMessagesNotVisible"), Some("0"));
    assert_eq!(attribute(&r.attributes, "VisibilityTimeout"), Some("30"));
    assert_eq!(r.attributes.len(), 3);
    assert_eq!(r.request_id.len(), 36);
}

#[test]
fn scenario_set_queue_attributes() {
    let mut registry = registry_with(&["q4"]);
    send(&mut registry, "q4", "one", 0);
    let request = body(&[
        ("QueueUrl", &url("q4")),
        ("Attribute.1.Name", "VisibilityTimeout"),
        ("Attribute.1.Value", "60"),
    ]);
    let todo = set_queue_attributes::process(&mut registry, &request).unwrap();
    assert_eq!(todo.queue_name, "q4");
    assert_eq!(todo.attributes, pairs(&[("VisibilityTimeout", "60")]));
    assert_eq!(todo.answer.request_id.len(), 36);
    let stored = todo.attributes;
    let r = get_queue_attributes::process(
        &registry,
        &body(&[("QueueUrl", &url("q4"))]),
        0,
        &stored,
    )
    .unwrap();
    assert_eq!(attribute(&r.attributes, "VisibilityTimeout"), Some("60"));
    assert_eq!(r.attributes.iter().filter(|a| a.name == "VisibilityTimeout").count(), 1);
    let got = receive_now(&mut registry, &[("QueueUrl", &url("q4"))], 1_000);
    assert_eq!(got.len(), 1);
    assert_eq!(registry.queue(0).messages()[0].visible_at, 61_000);
    assert!(receive_now(&mut registry, &[("QueueUrl", &url("q4"))], 60_999).is_empty());
    assert_eq!(receive_now(&mut registry, &[("QueueUrl", &url("q4"))], 61_000).len(), 1);
}

// ---- GetQueueAttributes ----

#[test]
fn get_queue_attributes_filters_and_merges() {
    let mut registry = registry_with(&["q"]);
    send(&mut registry, "q", "one", 0);
    send(&mut registry, "q", "two", 0);
    receive_now(&mut registry, &[("QueueUrl", &url("q"))], 0);
    let stored = pairs(&[
        ("DelaySeconds", "5"),
        ("VisibilityTimeout", "999"),
        ("ApproximateNumberOfMessages", "999"),
        ("MessageRetentionPeriod", "3600"),
    ]);
    let all = get_queue_attributes::process(&registry, &body(&[("QueueUrl", &url("q"))]), 1, &stored)
        .unwrap();
    let seen: Vec<(&str, &str)> =
        all.attributes.iter().map(|a| (a.name.as_str(), a.value.as_str())).collect();
    assert_eq!(
        seen,
        vec![
            ("ApproximateNumberOfMessages", "1"),
            ("ApproximateNumberOfMessagesNotVisible", "1"),
            ("VisibilityTimeout", "30"),
            ("DelaySeconds", "5"),
            ("MessageRetentionPeriod", "3600"),
        ]
    );
    let some = get_queue_attributes::process(
        &registry,
        &body(&[
            ("QueueUrl", &url("q")),
            ("AttributeName.1", "DelaySeconds"),
            ("AttributeName.2", "ApproximateNumberOfMessagesNotVisible"),
        ]),
        1,
        &stored,
    )
    .unwrap();
    let seen: Vec<(&str, &str)> =
        some.attributes.iter().map(|a| (a.name.as_str(), a.value.as_str())).collect();
    assert_eq!(seen, vec![("ApproximateNumberOfMessagesNotVisible", "1"), ("DelaySeconds", "5")]);
    let with_all = get_queue_attributes::process(
        &registry,
        &body(&[("QueueUrl", &url("q")), ("AttributeName.1", "DelaySeconds"), ("AttributeName.2", "All")]),
        1,
        &stored,
    )
    .unwrap();
    assert_eq!(with_all.attributes.len(), 5);
}

#[test]
fn get_queue_attributes_errors() {
    let registry = registry_with(&["q"]);
    let r = get_queue_attributes::process(&registry, &body(&[("QueueUrl", &url("zz"))]), 0, &vec![]);
    assert!(matches!(r, Err(ApiError::NonExistentQueue(_))));
    let r = get_queue_attributes::process(&registry, &body(&[("QueueUrl", "zz")]), 0, &vec![]);
    assert!(matches!(r, Err(ApiError::InvalidQueueUrl)));
    let r = get_queue_attributes::process(&registry, b"", 0, &vec![]);
    assert!(matches!(r, Err(ApiError::MissingParameter(Param::QueueUrl))));
    assert!(matches!(
        get_queue_attributes::target_queue(b"Action=GetQueueAttributes"),
        Err(ApiError::MissingParameter(Param::QueueUrl))
    ));
    assert!(matches!(
        get_queue_attributes::target_queue(b"QueueUrl=abc"),
        Err(ApiError::InvalidQueueUrl)
    ));
}

#[test]
fn wanted_names() {
    let none: Vec<String> = vec![];
    let some = vec!["A".to_owned(), "B".to_owned()];
    let all = vec!["A".to_owned(), "All".to_owned()];
    assert!(get_queue_attributes::is_wanted(&none, "X"));
    assert!(get_queue_attributes::is_wanted(&some, "A"));
    assert!(!get_queue_attributes::is_wanted(&some, "X"));
    assert!(get_queue_attributes::is_wanted(&all, "X"));
    assert!(get_queue_attributes::holds_name(&some, "B"));
    assert!(!get_queue_attributes::holds_name(&some, "b"));
}

// ---- SetQueueAttributes ----

#[test]
fn set_queue_attributes_errors_in_order() {
    let mut registry = registry_with(&["q"]);
    let r = set_queue_attributes::process(&mut registry, &body(&[("Attribute.1.Name", "A")]));
    assert!(matches!(r, Err(ApiError::MissingParameter(Param::QueueUrl))));
    let r = set_queue_attributes::process(&mut registry, &body(&[("QueueUrl", "zz")]));
    assert!(matches!(r, Err(ApiError::InvalidQueueUrl)));
    // No attributes is found before the queue is looked up.
    let r = set_queue_attributes::process(&mut registry, &body(&[("QueueUrl", &url("zz"))]));
    assert!(matches!(r, Err(ApiError::NoAttributes)));
    let r = set_queue_attributes::process(
        &mut registry,
        &body(&[("QueueUrl", &url("q")), ("Attribute.1.Name", "NameWithoutValue")]),
    );
    assert!(matches!(r, Err(ApiError::NoAttributes)));
    let r = set_queue_attributes::process(
        &mut registry,
        &body(&[("QueueUrl", &url("zz")), ("Attribute.1.Name", "A"), ("Attribute.1.Value", "1")]),
    );
    assert!(matches!(r, Err(ApiError::NonExistentQueue(_))));
    assert_eq!(registry.queue(0).visibility_timeout(), 30);
}

#[test]
fn set_queue_attributes_keeps_timeout_without_a_number() {
    let mut registry = registry_with(&["q"]);
    let todo = set_queue_attributes::process(
        &mut registry,
        &body(&[
            ("QueueUrl", &url("q")),
            ("Attribute.1.Name", "VisibilityTimeout"),
            ("Attribute.1.Value", "a minute"),
            ("Attribute.2.Name", "DelaySeconds"),
            ("Attribute.2.Value", "3"),
        ]),
    )
    .unwrap();
    assert_eq!(registry.queue(0).visibility_timeout(), 30);
    assert_eq!(
        todo.attributes,
        pairs(&[("VisibilityTimeout", "a minute"), ("DelaySeconds", "3")])
    );
}

// ---- DeleteMessage, ChangeMessageVisibility ----

#[test]
fn delete_message_errors() {
    let mut registry = registry_with(&["q"]);
    send(&mut registry, "q", "x", 0);
    let r = delete_message::process(&mut registry, &body(&[("QueueUrl", &url("q"))]));
    assert!(matches!(r, Err(ApiError::MissingParameter(Param::ReceiptHandle))));
    let r = delete_message::process(&mut registry, &body(&[("ReceiptHandle", "h")]));
    assert!(matches!(r, Err(ApiError::MissingParameter(Param::QueueUrl))));
    let r = delete_message::process(
        &mut registry,
        &body(&[("QueueUrl", "q"), ("ReceiptHandle", "h")]),
    );
    assert!(matches!(r, Err(ApiError::InvalidQueueUrl)));
    let r = delete_message::process(
        &mut registry,
        &body(&[("QueueUrl", &url("zz")), ("ReceiptHandle", "h")]),
    );
    assert!(matches!(r, Err(ApiError::NonExistentQueue(_))));
    let r = delete_message::process(
        &mut registry,
        &body(&[("QueueUrl", &url("q")), ("ReceiptHandle", "h")]),
    );
    assert!(matches!(r, Err(ApiError::InvalidReceiptHandle)));
    assert_eq!(registry.queue(0).len(), 1);
}

#[test]
fn change_message_visibility_sets_the_new_moment() {
    let mut registry = registry_with(&["q"]);
    send(&mut registry, "q", "x", 0);
    let got = receive_now(&mut registry, &[("QueueUrl", &url("q"))], 0);
    let request = body(&[
        ("QueueUrl", &url("q")),
        ("ReceiptHandle", &got[0].receipt_handle),
        ("VisibilityTimeout", "120"),
    ]);
    change_message_visibility::process(&mut registry, &request, 5_000).unwrap();
    assert_eq!(registry.queue(0).messages()[0].visible_at, 125_000);
}

#[test]
fn change_message_visibility_errors() {
    let mut registry = registry_with(&["q"]);
    let r = change_message_visibility::process(
        &mut registry,
        &body(&[("QueueUrl", &url("q")), ("ReceiptHandle", "h")]),
        0,
    );
    assert!(matches!(r, Err(ApiError::MissingParameter(Param::VisibilityTimeout))));
    let r = change_message_visibility::process(
        &mut registry,
        &body(&[("QueueUrl", &url("q")), ("ReceiptHandle", "h"), ("VisibilityTimeout", "x")]),
        0,
    );
    assert!(matches!(r, Err(ApiError::InvalidParameter(Param::VisibilityTimeout))));
    let r = change_message_visibility::process(
        &mut registry,
        &body(&[("QueueUrl", &url("q")), ("ReceiptHandle", "h"), ("VisibilityTimeout", "1")]),
        0,
    );
    assert!(matches!(r, Err(ApiError::InvalidReceiptHandle)));
    let r = change_message_visibility::process(
        &mut registry,
        &body(&[("QueueUrl", &url("zz")), ("ReceiptHandle", "h"), ("VisibilityTimeout", "1")]),
        0,
    );
    assert!(matches!(r, Err(ApiError::NonExistentQueue(_))));
    let r = change_message_visibility::process(
        &mut registry,
        &body(&[("QueueUrl", "zz"), ("ReceiptHandle", "h"), ("VisibilityTimeout", "1")]),
        0,
    );
    assert!(matches!(r, Err(ApiError::InvalidQueueUrl)));
}

// ---- registry ----

#[test]
fn registry_finds_queues_by_name() {
    let mut registry = registry_with(&["a", "b"]);
    assert!(registry.contains("a"));
    assert!(!registry.contains("A"));
    assert_eq!(registry.position("b"), Some(1));
    assert_eq!(registry.position("c"), None);
    assert!(!registry.create("a", vec![], Some(5)));
    assert_eq!(registry.len(), 2);
    registry.names_are_known_distinct();
    registry.push(1, Message::new_at("m".to_owned(), "x".to_owned(), 0));
    let got = registry.receive_at(1, 1, Some(2), 0);
    let handle = got[0].receipt_handle.clone().unwrap();
    assert!(registry.change_visibility_at(1, &handle, 1, 0));
    assert_eq!(registry.queue(1).messages()[0].visible_at, 1_000);
    registry.set_visibility_timeout(1, 9);
    assert_eq!(registry.queue(1).visibility_timeout(), 9);
    assert!(registry.delete_by_receipt_handle(1, &handle));
    assert_eq!(registry.queue(1).len(), 0);
    assert_eq!(registry.queue(0).len(), 0);
}
