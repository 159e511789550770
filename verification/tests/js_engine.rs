use topic_transformer::processors::js_engine::run;

#[test]
fn test_js_mixed_types() {
    let js_code = r#"
                let loaded_object = JSON.parse(input);
                let msg = loaded_object.msg;
                msg
            "#;
    let result = run(js_code, b"{\"msg\": \"Hello from Rust\"}");
    assert!(result.is_ok());
    assert_eq!(result.unwrap().as_str(), "Hello from Rust");
}

#[test]
fn test_js_engine_rejects_invalid_utf8() {
    let js_code = "input";
    let result = run(js_code, &[0xff, 0xfe, 0x00]);
    assert!(result.is_err());
}

#[test]
fn test_js_engine_reads_the_bound_input() {
    // Fails if the payload were not decoded and bound to the global.
    let js_code = r#"
                let loaded_object = JSON.parse(input);
                String(loaded_object.n + 1)
            "#;
    let result = run(js_code, b"{\"n\": 41}");
    assert!(result.is_ok());
    assert_eq!(result.unwrap().as_str(), "42");
}

#[test]
fn test_js_engine_rejects_non_string_result() {
    let js_code = "1 + 1";
    let result = run(js_code, b"{}");
    assert!(result.is_err());
}
