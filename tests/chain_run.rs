use turbopack_ecmascript_plugins::{ChainAction, PluginChainRun, TransformError};

fn names(list: &[&str]) -> Vec<String> {
    list.iter().map(|s| s.to_string()).collect()
}

fn append_marker(input: &[u8], marker: u8) -> Vec<u8> {
    let mut out = input.to_vec();
    out.push(marker);
    out
}

#[test]
fn empty_chain_returns_original_bytes() {
    let program = vec![1u8, 2, 3, 4];
    let run = PluginChainRun::start(Vec::new(), program.clone(), false);
    assert_eq!(run.next_action(), ChainAction::Deserialize);
    match run.finish() {
        Ok(bytes) => assert_eq!(bytes, program),
        Err(e) => panic!("unexpected error {:?}", e),
    }
}

#[test]
fn two_plugins_apply_in_order() {
    let mut run = PluginChainRun::start(names(&["a", "b"]), b"p".to_vec(), true);
    let mut calls = Vec::new();
    loop {
        match run.next_action() {
            ChainAction::Invoke { index, comments_enabled } => {
                assert!(comments_enabled);
                calls.push(index);
                let marker = if index == 0 { b'A' } else { b'B' };
                let out = append_marker(run.input(), marker);
                run.plugin_succeeded(out);
            }
            ChainAction::Deserialize | ChainAction::Abort => break,
        }
    }
    assert_eq!(calls, vec![0, 1]);
    match run.finish() {
        Ok(bytes) => assert_eq!(bytes, b"pAB".to_vec()),
        Err(e) => panic!("unexpected error {:?}", e),
    }
}

#[test]
fn second_plugin_receives_first_output() {
    let mut run = PluginChainRun::start(names(&["a", "b"]), b"x".to_vec(), false);
    run.plugin_succeeded(b"first".to_vec());
    assert_eq!(run.input(), &b"first".to_vec());
    assert_eq!(
        run.next_action(),
        ChainAction::Invoke { index: 1, comments_enabled: false }
    );
}

#[test]
fn failure_at_second_of_three_stops_chain() {
    let mut run = PluginChainRun::start(names(&["one", "two", "three"]), b"x".to_vec(), false);
    let mut invoked = Vec::new();
    loop {
        match run.next_action() {
            ChainAction::Invoke { index, .. } => {
                invoked.push(index);
                if index == 1 {
                    run.plugin_failed();
                } else {
                    let out = append_marker(run.input(), b'.');
                    run.plugin_succeeded(out);
                }
            }
            ChainAction::Deserialize | ChainAction::Abort => break,
        }
    }
    assert_eq!(invoked, vec![0, 1]);
    assert_eq!(run.next_action(), ChainAction::Abort);
    match run.finish() {
        Err(TransformError::PluginExecution { index, plugin_name }) => {
            assert_eq!(index, 1);
            assert_eq!(plugin_name, "two");
        }
        other => panic!("unexpected result {:?}", other),
    }
}

#[test]
fn failure_at_first_plugin_keeps_input() {
    let mut run = PluginChainRun::start(names(&["only"]), b"src".to_vec(), false);
    run.plugin_failed();
    assert_eq!(run.input(), &b"src".to_vec());
    assert!(matches!(
        run.finish(),
        Err(TransformError::PluginExecution { index: 0, .. })
    ));
}

#[test]
fn missing_serialized_bytes_is_serialize_error() {
    assert!(matches!(
        turbopack_ecmascript_plugins::serialization_outcome(None),
        Err(TransformError::Serialize)
    ));
    match turbopack_ecmascript_plugins::serialization_outcome(Some(vec![4, 2])) {
        Ok(bytes) => assert_eq!(bytes, vec![4, 2]),
        Err(e) => panic!("unexpected error {:?}", e),
    }
}

#[test]
fn missing_program_is_deserialize_error() {
    assert!(matches!(
        turbopack_ecmascript_plugins::deserialization_outcome::<String>(None),
        Err(TransformError::Deserialize)
    ));
    match turbopack_ecmascript_plugins::deserialization_outcome(Some("ast".to_string())) {
        Ok(p) => assert_eq!(p, "ast"),
        Err(e) => panic!("unexpected error {:?}", e),
    }
}
