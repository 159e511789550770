use topic_transformer::processors::{get_processor, json::Json, Processor, ProcessorType};

#[test]
fn test_get_processor_returns_the_json_processor() {
    let processor = get_processor(ProcessorType::JSON);
    assert!(matches!(processor.get_type(), ProcessorType::JSON));
}

#[test]
fn test_json_processor_produces_no_output_yet() {
    let processor = Json::new();
    let out = processor.process(b"{\"anything\":1}");
    assert!(out.is_empty());
}
