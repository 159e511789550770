use topic_transformer::topic_processor::{
    forward_decision, IngestOutcome, OutputAction, TombstonePolicy, TopicProcessor,
    TopicProcessorConfig,
};
use topic_transformer::transformer::task::{
    TransformRequest, TransformResponse, TransformTask, TransformTaskConfig,
};
use topic_transformer::transformer::{TransformError, TransformerConfig, TransformerType};

const IDENTITY_SCRIPT: &str = "function transform(x) { return x; }";

fn script_config(script: &str) -> TransformerConfig {
    TransformerConfig {
        transformer_type: TransformerType::JSON,
        script: script.to_string(),
    }
}

fn processor_config(script: &str, capacity: usize, policy: TombstonePolicy) -> TopicProcessorConfig {
    TopicProcessorConfig {
        kafka_brokers: "localhost:9092".to_string(),
        kafka_group_id: "test-group".to_string(),
        input_topic: "input".to_string(),
        output_topic: "output".to_string(),
        transformer_config: script_config(script),
        tombstone_policy: policy,
        channel_capacity: capacity,
    }
}

fn ok_payload(response: Option<Result<TransformResponse, TransformError>>) -> Vec<u8> {
    response.expect("a response should be ready").expect("the transform should succeed").payload
}

#[test]
fn test_scenario_project_single_field() {
    // script `function transform(x){return {msg:x.msg}}` on `{"msg":"hi","n":1}`
    let config = TransformTaskConfig::new(
        script_config("function transform(x) { return {msg: x.msg}; }"),
        0,
    );
    let mut task = TransformTask::new(config).unwrap();
    assert!(task.submit(TransformRequest { payload: b"{\"msg\":\"hi\",\"n\":1}".to_vec() }).is_ok());
    assert!(task.process_one());
    let out = ok_payload(task.next_response());
    assert_eq!(out.as_slice(), b"{\"msg\":\"hi\"}");
}

#[test]
fn test_identity_transform_round_trips() {
    let config = TransformTaskConfig::new(script_config(IDENTITY_SCRIPT), 0);
    let mut task = TransformTask::new(config).unwrap();
    let input: &[u8] = b"{\"msg\":\"hi\",\"n\":1,\"nested\":{\"a\":[1,2,3]}}";
    assert!(task.submit(TransformRequest { payload: input.to_vec() }).is_ok());
    assert!(task.process_one());
    let out = ok_payload(task.next_response());
    assert_eq!(out.as_slice(), input);
}

#[test]
fn test_invalid_utf8_fails_without_stalling_the_worker() {
    let config = TransformTaskConfig::new(script_config(IDENTITY_SCRIPT), 0);
    let mut task = TransformTask::new(config).unwrap();

    assert!(task.submit(TransformRequest { payload: vec![0xff, 0xfe, 0x00] }).is_ok());
    assert!(task.process_one());
    let response = task.next_response().unwrap();
    assert!(matches!(response, Err(TransformError::InvalidInput(_))));

    // the next valid request on the same worker still succeeds
    assert!(task.submit(TransformRequest { payload: b"{\"n\":7}".to_vec() }).is_ok());
    assert!(task.process_one());
    let out = ok_payload(task.next_response());
    assert_eq!(out.as_slice(), b"{\"n\":7}");
}

#[test]
fn test_text_that_is_not_json_is_invalid_input() {
    let config = TransformTaskConfig::new(script_config(IDENTITY_SCRIPT), 0);
    let mut task = TransformTask::new(config).unwrap();
    assert!(task.submit(TransformRequest { payload: b"not structured data".to_vec() }).is_ok());
    assert!(task.process_one());
    let response = task.next_response().unwrap();
    assert!(matches!(response, Err(TransformError::InvalidInput(_))));
}

#[test]
fn test_scenario_throwing_script_leaves_worker_alive() {
    // script that throws when `x.required` is falsy
    let script = "function transform(x) { if (!x.required) { throw new Error(\"Required field is missing\"); } return {ok: true}; }";
    let config = TransformTaskConfig::new(script_config(script), 0);
    let mut task = TransformTask::new(config).unwrap();

    assert!(task.submit(TransformRequest { payload: b"{}".to_vec() }).is_ok());
    assert!(task.process_one());
    let response = task.next_response().unwrap();
    match response {
        Err(TransformError::Transform(message)) => {
            assert!(message.contains("Required field is missing"));
        }
        _ => panic!("expected a transform failure"),
    }

    // the following input on the same partition still succeeds
    assert!(task.submit(TransformRequest { payload: b"{\"required\":true}".to_vec() }).is_ok());
    assert!(task.process_one());
    let out = ok_payload(task.next_response());
    assert_eq!(out.as_slice(), b"{\"ok\":true}");
}

#[test]
fn test_scenario_backpressure_with_capacity_two() {
    // request queue capacity 2, three rapid submissions to one partition
    let config = TransformTaskConfig::with_channel_capacity(script_config(IDENTITY_SCRIPT), 0, 2);
    let mut task = TransformTask::new(config).unwrap();

    assert!(task.submit(TransformRequest { payload: b"{\"n\":1}".to_vec() }).is_ok());
    assert!(task.submit(TransformRequest { payload: b"{\"n\":2}".to_vec() }).is_ok());

    // the third submission is refused until the worker drains one
    let third = task.submit(TransformRequest { payload: b"{\"n\":3}".to_vec() });
    let returned = match third {
        Err(request) => request,
        Ok(()) => panic!("a full queue must refuse the third submission"),
    };

    assert!(task.process_one());
    let resubmitted = task.submit(returned);
    assert!(resubmitted.is_ok());

    // the response queue is bounded too: drain it while processing
    assert!(task.process_one());
    assert_eq!(ok_payload(task.next_response()).as_slice(), b"{\"n\":1}");
    assert!(task.process_one());
    assert_eq!(ok_payload(task.next_response()).as_slice(), b"{\"n\":2}");
    assert_eq!(ok_payload(task.next_response()).as_slice(), b"{\"n\":3}");
}

#[test]
fn test_fifo_order_is_preserved_per_partition() {
    let script = "function transform(x) { return {n: x.n}; }";
    let config = TransformTaskConfig::new(script_config(script), 0);
    let mut task = TransformTask::new(config).unwrap();
    assert!(task.submit(TransformRequest { payload: b"{\"n\":1}".to_vec() }).is_ok());
    assert!(task.submit(TransformRequest { payload: b"{\"n\":2}".to_vec() }).is_ok());
    assert!(task.submit(TransformRequest { payload: b"{\"n\":3}".to_vec() }).is_ok());
    assert!(task.process_one());
    assert!(task.process_one());
    assert!(task.process_one());
    assert_eq!(ok_payload(task.next_response()).as_slice(), b"{\"n\":1}");
    assert_eq!(ok_payload(task.next_response()).as_slice(), b"{\"n\":2}");
    assert_eq!(ok_payload(task.next_response()).as_slice(), b"{\"n\":3}");
    assert!(task.next_response().is_none());
}

#[test]
fn test_scenario_registry_isolation_out_of_order_partitions() {
    // partition 1 is created before partition 0; each record still reaches
    // only its own partition's worker
    let script = "function transform(x) { return {from: x.p}; }";
    let mut processor = TopicProcessor::new(processor_config(script, 10, TombstonePolicy::Drop));

    let one = match processor.ingest(1, Some(b"k1".to_vec()), Some(b"{\"p\":1}".to_vec())) {
        Ok(IngestOutcome::Enqueued { index }) => index,
        other => panic!("expected the record to be enqueued: {}", describe(&other)),
    };
    let zero = match processor.ingest(0, Some(b"k0".to_vec()), Some(b"{\"p\":0}".to_vec())) {
        Ok(IngestOutcome::Enqueued { index }) => index,
        other => panic!("expected the record to be enqueued: {}", describe(&other)),
    };
    assert_ne!(one, zero);

    // partition 0's worker holds no work for partition 1 and vice versa:
    // processing partition 0 yields exactly its own record, while partition
    // 1's response is not affected
    assert!(processor.process_partition(zero));
    let (key, response) = processor.collect_response(zero).unwrap();
    assert_eq!(key.unwrap().as_slice(), b"k0");
    assert_eq!(response.unwrap().payload.as_slice(), b"{\"from\":0}");
    assert!(processor.collect_response(zero).is_none());

    // a blocked / unprocessed partition 1 did not delay partition 0; its own
    // record is still intact and processed independently
    assert!(processor.process_partition(one));
    let (key, response) = processor.collect_response(one).unwrap();
    assert_eq!(key.unwrap().as_slice(), b"k1");
    assert_eq!(response.unwrap().payload.as_slice(), b"{\"from\":1}");

    // the registry never creates a second worker for a known partition
    let again = processor.get_or_create_task(1).unwrap();
    assert_eq!(again, one);
}

fn describe(outcome: &Result<IngestOutcome, TransformError>) -> &'static str {
    match outcome {
        Ok(IngestOutcome::Enqueued { .. }) => "enqueued",
        Ok(IngestOutcome::QueueFull { .. }) => "queue full",
        Ok(IngestOutcome::TombstoneForwarded { .. }) => "tombstone forwarded",
        Ok(IngestOutcome::TombstoneDropped) => "tombstone dropped",
        Err(_) => "error",
    }
}

#[test]
fn test_slow_partition_does_not_block_another() {
    // partition 5 has queued work that is never processed; partition 6 still
    // completes end to end
    let mut processor =
        TopicProcessor::new(processor_config(IDENTITY_SCRIPT, 10, TombstonePolicy::Drop));
    let slow = match processor.ingest(5, None, Some(b"{\"slow\":true}".to_vec())) {
        Ok(IngestOutcome::Enqueued { index }) => index,
        other => panic!("expected the record to be enqueued: {}", describe(&other)),
    };
    let fast = match processor.ingest(6, None, Some(b"{\"fast\":true}".to_vec())) {
        Ok(IngestOutcome::Enqueued { index }) => index,
        other => panic!("expected the record to be enqueued: {}", describe(&other)),
    };

    // partition 5 never runs; partition 6 is processed and collected
    assert!(processor.process_partition(fast));
    let (key, response) = processor.collect_response(fast).unwrap();
    assert!(key.is_none());
    assert_eq!(response.unwrap().payload.as_slice(), b"{\"fast\":true}");

    // partition 5's record is still queued, untouched
    assert!(processor.collect_response(slow).is_none());
}

#[test]
fn test_tombstone_policy_forward() {
    let mut processor =
        TopicProcessor::new(processor_config(IDENTITY_SCRIPT, 10, TombstonePolicy::Forward));
    let outcome = processor.ingest(0, Some(b"key".to_vec()), None).unwrap();
    match outcome {
        IngestOutcome::TombstoneForwarded { key } => {
            assert_eq!(key.unwrap().as_slice(), b"key");
        }
        _ => panic!("a tombstone must be forwarded under the forward policy"),
    }
}

#[test]
fn test_tombstone_policy_drop() {
    let mut processor =
        TopicProcessor::new(processor_config(IDENTITY_SCRIPT, 10, TombstonePolicy::Drop));
    let outcome = processor.ingest(0, Some(b"key".to_vec()), None).unwrap();
    assert!(matches!(outcome, IngestOutcome::TombstoneDropped));
    // no worker is created for a tombstone
    assert_eq!(processor.entries.len(), 0);
}

#[test]
fn test_definition_error_for_broken_script() {
    // a script that does not parse
    let result = TransformTask::new(TransformTaskConfig::new(script_config("function ("), 0));
    assert!(matches!(result, Err(TransformError::Definition(_))));

    // a script that parses but defines no one-argument transform entry point
    let result =
        TransformTask::new(TransformTaskConfig::new(script_config("var unrelated = 1;"), 0));
    assert!(matches!(result, Err(TransformError::Definition(_))));

    // a transform with the wrong arity is refused as well
    let result = TransformTask::new(TransformTaskConfig::new(
        script_config("function transform(a, b) { return a; }"),
        0,
    ));
    assert!(matches!(result, Err(TransformError::Definition(_))));
}

#[test]
fn test_forward_decision_publishes_success_under_key() {
    let action = forward_decision(
        Some(b"the-key".to_vec()),
        Ok(TransformResponse { payload: b"out".to_vec() }),
    );
    match action {
        OutputAction::Publish { key, payload } => {
            assert_eq!(key.as_slice(), b"the-key");
            assert_eq!(payload.as_slice(), b"out");
        }
        OutputAction::DropFailure { .. } => panic!("a success must be published"),
    }
}

#[test]
fn test_forward_decision_missing_key_becomes_empty() {
    let action = forward_decision(None, Ok(TransformResponse { payload: b"out".to_vec() }));
    match action {
        OutputAction::Publish { key, payload } => {
            assert_eq!(key.len(), 0);
            assert_eq!(payload.as_slice(), b"out");
        }
        OutputAction::DropFailure { .. } => panic!("a success must be published"),
    }
}

#[test]
fn test_forward_decision_drops_failures_with_their_message() {
    let action = forward_decision(
        Some(b"k".to_vec()),
        Err(TransformError::InvalidInput("not UTF-8".to_string())),
    );
    match action {
        OutputAction::DropFailure { message } => assert_eq!(message.as_str(), "not UTF-8"),
        OutputAction::Publish { .. } => panic!("a failure must never be published"),
    }
}

#[test]
fn test_shutdown_drains_queued_work() {
    let mut processor =
        TopicProcessor::new(processor_config(IDENTITY_SCRIPT, 10, TombstonePolicy::Drop));
    let index = match processor.ingest(0, Some(b"k".to_vec()), Some(b"{\"n\":1}".to_vec())) {
        Ok(IngestOutcome::Enqueued { index }) => index,
        other => panic!("expected the record to be enqueued: {}", describe(&other)),
    };

    processor.shutdown();

    // nothing new is accepted once shut down
    let refused = processor.ingest(0, None, Some(b"{\"n\":2}".to_vec())).unwrap();
    assert!(matches!(refused, IngestOutcome::QueueFull { .. }));

    // but work accepted before the shutdown still drains, in order
    assert!(processor.process_partition(index));
    let (key, response) = processor.collect_response(index).unwrap();
    assert_eq!(key.unwrap().as_slice(), b"k");
    assert_eq!(response.unwrap().payload.as_slice(), b"{\"n\":1}");
    assert!(processor.collect_response(index).is_none());
}

#[test]
fn test_closed_worker_refuses_then_stops() {
    let config = TransformTaskConfig::new(script_config(IDENTITY_SCRIPT), 0);
    let mut task = TransformTask::new(config).unwrap();
    assert!(task.submit(TransformRequest { payload: b"{\"n\":1}".to_vec() }).is_ok());

    task.close();
    assert!(task.submit(TransformRequest { payload: b"{\"n\":2}".to_vec() }).is_err());

    assert!(task.process_one());
    assert_eq!(ok_payload(task.next_response()).as_slice(), b"{\"n\":1}");
    // drained: nothing queued, nothing pending
    assert!(!task.process_one());
    assert!(task.next_response().is_none());
}

#[test]
fn test_task_config_builders() {
    let config = TransformTaskConfig::new(script_config(IDENTITY_SCRIPT), 3);
    assert_eq!(config.partition, 3);
    assert_eq!(config.channel_capacity, 100);

    let config = TransformTaskConfig::with_channel_capacity(script_config(IDENTITY_SCRIPT), 4, 7);
    assert_eq!(config.partition, 4);
    assert_eq!(config.channel_capacity, 7);
}
