use web_server::error::AppError;
use web_server::handlers::{
    check_age, check_name, handle_delete, handle_patch, handle_post, handle_put, hello, root,
    CreateInput, PatchInput,
};
use web_server::json::{frame_member, json_member, Field};
use web_server::reply::{ContentType, Reply};
use web_server::routes::{
    respond_create, respond_delete, respond_hello, respond_patch, respond_replace, respond_root,
};
use web_server::text::{is_blank, is_white_space, push_decimal, trimmed_len};

fn create(name: &str, age: u8) -> CreateInput {
    CreateInput { name: name.to_string(), age }
}

fn patch(name: Option<&str>, age: Option<u8>) -> PatchInput {
    PatchInput { name: name.map(|n| n.to_string()), age }
}

fn assert_reply(r: &Reply, status: u16, content_type: ContentType, body: &str) {
    assert_eq!(r.status, status);
    assert_eq!(r.content_type, content_type);
    assert_eq!(r.body, body);
}

#[test]
fn root_welcomes() {
    assert_eq!(root(), "Welcome to the Rust Web Server!");
    assert_reply(&respond_root(), 200, ContentType::Text, "Welcome to the Rust Web Server!");
}

#[test]
fn hello_greets_valid_names() {
    assert_reply(&respond_hello("Alice"), 200, ContentType::Text, "Hello, Alice!");
    assert_reply(&respond_hello("a"), 200, ContentType::Text, "Hello, a!");
    let fifty = "x".repeat(50);
    assert_reply(&respond_hello(&fifty), 200, ContentType::Text, &format!("Hello, {}!", fifty));
    assert_eq!(hello(" Bob ").unwrap(), "Hello,  Bob !");
}

#[test]
fn hello_refuses_blank_names() {
    for name in ["", " ", "\t\n", "\u{3000}\u{a0}"] {
        assert_reply(
            &respond_hello(name),
            400,
            ContentType::Json,
            "{\"error\":\"Name cannot be empty\"}",
        );
    }
}

#[test]
fn hello_refuses_long_names() {
    let long = "x".repeat(51);
    assert_reply(
        &respond_hello(&long),
        400,
        ContentType::Json,
        "{\"error\":\"Name is too long (max 50 characters)\"}",
    );
    let padded = format!(" {}", "y".repeat(51));
    assert_eq!(respond_hello(&padded).status, 400);
}

#[test]
fn hello_measures_names_after_trimming() {
    let padded = format!(" {} ", "y".repeat(50));
    assert_reply(&respond_hello(&padded), 200, ContentType::Text, &format!("Hello, {}!", padded));
    let tabbed = format!("\t{}\u{3000}", "z".repeat(50));
    assert!(hello(&tabbed).is_ok());
}

#[test]
fn padded_names_are_accepted_by_every_body_route() {
    let padded = format!("  {} ", "p".repeat(50));
    let (status, message) = handle_post(create(&padded, 30)).unwrap();
    assert_eq!(status, 201);
    assert_eq!(message, format!("Hello, {}! You are 30 years old.", padded));
    assert!(handle_put(create(&padded, 30)).is_ok());
    assert_eq!(
        respond_create(create(&padded, 0)).body,
        "{\"error\":\"Invalid age\"}"
    );
    assert_eq!(
        respond_patch(patch(Some(&padded), Some(0))).body,
        "{\"error\":\"Invalid age\"}"
    );
    let (_, message) = handle_patch(patch(Some(&padded), None)).unwrap();
    assert_eq!(message, format!("Updated name to: {}", padded));
    let (_, message) = handle_patch(patch(Some(&padded), Some(40))).unwrap();
    assert_eq!(message, format!("Updated: {}! You are 40 years old.", padded));
}

#[test]
fn trimmed_length_counts_inner_characters() {
    assert_eq!(trimmed_len(""), 0);
    assert_eq!(trimmed_len(" \t "), 0);
    assert_eq!(trimmed_len("  a b  "), 3);
    assert_eq!(trimmed_len("\u{2003}é\n"), 1);
}

#[test]
fn names_count_characters() {
    let wide = "é".repeat(50);
    assert!(check_name(&wide).is_ok());
    assert!(check_name(&"é".repeat(51)).is_err());
}

#[test]
fn create_greets_with_age() {
    let r = respond_create(create("Alice", 30));
    assert_reply(
        &r,
        201,
        ContentType::Json,
        "{\"message\":\"Hello, Alice! You are 30 years old.\"}",
    );
    let (status, message) = handle_post(create("Zed", 1)).unwrap();
    assert_eq!(status, 201);
    assert_eq!(message, "Hello, Zed! You are 1 years old.");
    let (_, message) = handle_post(create("Old", 120)).unwrap();
    assert_eq!(message, "Hello, Old! You are 120 years old.");
}

#[test]
fn create_refuses_empty_name() {
    assert_reply(
        &respond_create(create("", 30)),
        400,
        ContentType::Json,
        "{\"error\":\"Name cannot be empty\"}",
    );
}

#[test]
fn create_refuses_ages_out_of_range() {
    for age in [0u8, 121, 255] {
        assert_reply(
            &respond_create(create("Bob", age)),
            400,
            ContentType::Json,
            "{\"error\":\"Invalid age\"}",
        );
    }
}

#[test]
fn create_checks_name_before_age() {
    let r = respond_create(create(" ", 0));
    assert_eq!(r.body, "{\"error\":\"Name cannot be empty\"}");
}

#[test]
fn replace_answers_ok() {
    assert_reply(
        &respond_replace(create("Carol", 45)),
        200,
        ContentType::Json,
        "{\"message\":\"Hello, Carol! You are 45 years old.\"}",
    );
    assert!(matches!(handle_put(create("Carol", 121)), Err(AppError::ValidationError(_))));
}

#[test]
fn patch_name_only() {
    assert_reply(
        &respond_patch(patch(Some("Bob"), None)),
        200,
        ContentType::Json,
        "{\"message\":\"Updated name to: Bob\"}",
    );
}

#[test]
fn patch_age_only_and_both() {
    assert_eq!(
        respond_patch(patch(None, Some(25))).body,
        "{\"message\":\"Updated age to: 25\"}"
    );
    assert_eq!(
        respond_patch(patch(Some("Bob"), Some(7))).body,
        "{\"message\":\"Updated: Bob! You are 7 years old.\"}"
    );
}

#[test]
fn patch_refuses_empty_body() {
    assert_reply(
        &respond_patch(patch(None, None)),
        400,
        ContentType::Json,
        "{\"error\":\"At least one field must be provided\"}",
    );
}

#[test]
fn patch_refuses_bad_fields() {
    assert_eq!(
        respond_patch(patch(Some(""), Some(30))).body,
        "{\"error\":\"Name cannot be empty\"}"
    );
    assert_eq!(respond_patch(patch(None, Some(0))).body, "{\"error\":\"Invalid age\"}");
    assert!(handle_patch(patch(Some(&"n".repeat(51)), None)).is_err());
}

#[test]
fn delete_confirms() {
    assert_reply(
        &respond_delete("123"),
        200,
        ContentType::Json,
        "{\"message\":\"Resource with ID '123' has been deleted\"}",
    );
}

#[test]
fn delete_refuses_empty_id() {
    for id in ["", "   "] {
        assert_reply(
            &respond_delete(id),
            400,
            ContentType::Json,
            "{\"error\":\"ID cannot be empty\"}",
        );
    }
    assert!(handle_delete("").is_err());
}

#[test]
fn repeated_requests_answer_identically() {
    for name in ["Alice", "", "x"] {
        assert_eq!(respond_hello(name).body, respond_hello(name).body);
    }
    for id in ["123", ""] {
        assert_eq!(respond_delete(id).body, respond_delete(id).body);
    }
    assert_eq!(respond_root().body, respond_root().body);
}

#[test]
fn errors_map_to_status_and_body() {
    let r = AppError::ValidationError("bad".to_string()).into_response();
    assert_reply(&r, 400, ContentType::Json, "{\"error\":\"bad\"}");
    let r = AppError::NotFound("gone".to_string()).into_response();
    assert_reply(&r, 404, ContentType::Json, "{\"error\":\"gone\"}");
    let r = AppError::InternalError.into_response();
    assert_reply(&r, 500, ContentType::Json, "{\"error\":\"Internal Server Error\"}");
    assert_eq!(AppError::InternalError.status(), 500);
    assert_eq!(AppError::NotFound("x".to_string()).message(), "x");
}

#[test]
fn json_values_are_escaped() {
    assert_eq!(
        respond_patch(patch(Some("a\"b\\c"), None)).body,
        "{\"message\":\"Updated name to: a\\\"b\\\\c\"}"
    );
    assert_eq!(json_member(Field::Error, "line\nbreak"), "{\"error\":\"line\\nbreak\"}");
    assert_eq!(
        json_member(Field::Message, "\u{1}\u{1f}\u{8}\u{c}\r\t/é"),
        "{\"message\":\"\\u0001\\u001f\\b\\f\\r\\t/é\"}"
    );
    assert_eq!(frame_member(Field::Message, "7"), "{\"message\":7}");
}

#[test]
fn blank_and_decimal_helpers() {
    assert!(is_blank(""));
    assert!(is_blank(" \t\r\n\u{2028}"));
    assert!(!is_blank(" a "));
    assert!(is_white_space('\u{85}'));
    assert!(!is_white_space('\u{200b}'));
    assert!(check_age(1).is_ok());
    assert!(check_age(120).is_ok());
    assert!(check_age(0).is_err());
    let mut s = String::from("n=");
    push_decimal(&mut s, 0);
    push_decimal(&mut s, 9);
    push_decimal(&mut s, 255);
    assert_eq!(s, "n=09255");
}
