use resolver_hook::plugin::{DESTROY_SYMBOL, INIT_SYMBOL, QUERY_SYMBOL};
use resolver_hook::{Action, ConfigFault, ErrorKind, HookError, HookPlugin, PackageId, Phase, ProtocolFault};

fn candidate(text: &str) -> PackageId {
    PackageId::from_json(format!("\"{}\"", text)).unwrap()
}

fn live(path: &str) -> HookPlugin {
    let (mut backend, _) = HookPlugin::new(path, &None).unwrap();
    assert_eq!(backend.started(true), Ok(()));
    backend
}

/// A plugin that accepts the requests with `marker` in them.
fn stub_query(request: &str, marker: &str) -> u32 {
    if request.contains(marker) {
        1
    } else {
        0
    }
}

fn ask(backend: &mut HookPlugin, id: &PackageId, log: &mut Vec<Action>) -> Result<bool, HookError> {
    let action = backend.hook(id).expect("the backend is idle");
    let code = match &action {
        Action::Query { request } => stub_query(request, "serde"),
        other => panic!("no query: {:?}", other),
    };
    log.push(action);
    backend.reply(code)
}

fn teardown(backend: &mut HookPlugin, log: &mut Vec<Action>) {
    loop {
        let action = backend.shutdown();
        if action == Action::Idle {
            break;
        }
        log.push(action);
    }
}

#[test]
fn entry_points_are_named() {
    assert_eq!(INIT_SYMBOL, "plugin_init");
    assert_eq!(QUERY_SYMBOL, "plugin_query");
    assert_eq!(DESTROY_SYMBOL, "plugin_delete");
}

#[test]
fn plugin_without_params_gets_empty_text() {
    let (backend, first) = HookPlugin::new("libhook.so", &None).unwrap();
    assert_eq!(first, Action::Load { path: "libhook.so".to_string(), params: String::new() });
    assert_eq!(backend.phase(), Phase::Starting);
    assert_eq!(backend.path(), "libhook.so");
    assert_eq!(backend.params(), "");
}

#[test]
fn plugin_params_are_written_as_toml() {
    let mut table = toml::value::Table::new();
    table.insert("marker".to_string(), toml::Value::String("serde".to_string()));
    table.insert("strict".to_string(), toml::Value::Boolean(true));
    let (backend, first) = HookPlugin::new("libhook.so", &Some(toml::Value::Table(table))).unwrap();
    let text = "marker = \"serde\"\nstrict = true\n";
    assert_eq!(first, Action::Load { path: "libhook.so".to_string(), params: text.to_string() });
    assert_eq!(backend.params(), text);
}

#[test]
fn unwritable_params_load_nothing() {
    let mut inner = toml::value::Table::new();
    inner.insert("k".to_string(), toml::Value::Integer(1));
    let nested = toml::Value::Array(vec![toml::Value::Array(vec![toml::Value::Table(inner)])]);
    let mut outer = toml::value::Table::new();
    outer.insert("a".to_string(), nested);
    outer.insert("b".to_string(), toml::Value::Integer(1));
    let outcome = HookPlugin::new("libhook.so", &Some(toml::Value::Table(outer)));
    match outcome {
        Err(error) => {
            assert_eq!(
                error,
                HookError::Config { fault: ConfigFault::Params, detail: "libhook.so".to_string() }
            );
            assert_eq!(error.kind(), ErrorKind::Config);
        }
        Ok(_) => panic!("the parameters cannot be written"),
    }
}

#[test]
fn init_text_is_handed_on_as_it_is() {
    let (backend, first) = HookPlugin::with_init_text("libhook.so", "a = 1\n".to_string());
    assert_eq!(first, Action::Load { path: "libhook.so".to_string(), params: "a = 1\n".to_string() });
    assert_eq!(backend.params(), "a = 1\n");
}

#[test]
fn stub_plugin_accepts_by_marker() {
    let mut backend = live("libhook.so");
    let mut log = Vec::new();
    assert_eq!(ask(&mut backend, &candidate("serde 1.0.0"), &mut log), Ok(true));
    assert_eq!(ask(&mut backend, &candidate("left-pad 0.1.0"), &mut log), Ok(false));
    assert_eq!(ask(&mut backend, &candidate("serde_json 1.0.0"), &mut log), Ok(true));
    assert_eq!(
        log,
        vec![
            Action::Query { request: "\"serde 1.0.0\"\n".to_string() },
            Action::Query { request: "\"left-pad 0.1.0\"\n".to_string() },
            Action::Query { request: "\"serde_json 1.0.0\"\n".to_string() },
        ]
    );
}

#[test]
fn destroy_runs_once_after_all_queries() {
    let (mut backend, first) = HookPlugin::new("libhook.so", &None).unwrap();
    let mut log = vec![first];
    backend.started(true).unwrap();
    for n in 0..20 {
        let id = candidate(&format!("pkg{} 1.0.0", n));
        assert_eq!(ask(&mut backend, &id, &mut log), Ok(false));
    }
    teardown(&mut backend, &mut log);
    teardown(&mut backend, &mut log);
    let destroys: Vec<usize> =
        (0..log.len()).filter(|&i| log[i] == Action::Destroy).collect();
    let unloads: Vec<usize> = (0..log.len()).filter(|&i| log[i] == Action::Unload).collect();
    let last_query = (0..log.len()).filter(|&i| matches!(log[i], Action::Query { .. })).max();
    assert_eq!(destroys, vec![21]);
    assert_eq!(unloads, vec![22]);
    assert_eq!(last_query, Some(20));
    assert_eq!(log.len(), 23);
    assert!(matches!(log[0], Action::Load { .. }));
    assert_eq!(backend.phase(), Phase::Closed);
}

#[test]
fn teardown_is_destroy_then_unload() {
    let mut backend = live("libhook.so");
    assert_eq!(backend.shutdown(), Action::Destroy);
    assert_eq!(backend.phase(), Phase::Destroyed);
    assert_eq!(backend.shutdown(), Action::Unload);
    assert_eq!(backend.phase(), Phase::Closed);
    assert_eq!(backend.shutdown(), Action::Idle);
    assert_eq!(backend.shutdown(), Action::Idle);
}

#[test]
fn teardown_runs_after_an_error() {
    let mut backend = live("libhook.so");
    let id = candidate("serde 1.0.0");
    backend.hook(&id).unwrap();
    assert!(backend.reply(9).is_err());
    assert_eq!(backend.shutdown(), Action::Destroy);
    assert_eq!(backend.shutdown(), Action::Unload);
    assert_eq!(backend.shutdown(), Action::Idle);
}

#[test]
fn teardown_runs_with_a_query_in_flight() {
    let mut backend = live("libhook.so");
    backend.hook(&candidate("serde 1.0.0")).unwrap();
    assert_eq!(backend.phase(), Phase::Waiting);
    assert_eq!(backend.shutdown(), Action::Destroy);
    assert!(backend.reply(1).is_err());
    assert_eq!(backend.shutdown(), Action::Unload);
}

#[test]
fn no_query_once_teardown_has_begun() {
    let mut backend = live("libhook.so");
    let id = candidate("serde 1.0.0");
    assert_eq!(backend.shutdown(), Action::Destroy);
    assert_eq!(
        backend.hook(&id),
        Err(HookError::Protocol {
            path: "libhook.so".to_string(),
            request: "\"serde 1.0.0\"".to_string(),
            fault: ProtocolFault::OutOfTurn,
        })
    );
    assert_eq!(backend.phase(), Phase::Destroyed);
    assert_eq!(backend.shutdown(), Action::Unload);
    assert!(backend.hook(&id).is_err());
    assert_eq!(backend.phase(), Phase::Closed);
}

#[test]
fn unexpected_code_breaks_the_protocol() {
    let mut backend = live("libhook.so");
    let id = candidate("serde 1.0.0");
    assert!(backend.hook(&id).is_ok());
    let answer = backend.reply(2);
    assert_eq!(
        answer,
        Err(HookError::Protocol {
            path: "libhook.so".to_string(),
            request: "\"serde 1.0.0\"".to_string(),
            fault: ProtocolFault::Code(2),
        })
    );
    assert_eq!(answer.unwrap_err().kind(), ErrorKind::Protocol);
    assert_eq!(backend.phase(), Phase::Ready);
    assert!(backend.hook(&id).is_ok());
    assert_eq!(backend.reply(1), Ok(true));
}

#[test]
fn failed_load_is_a_load_error_and_owes_nothing() {
    let (mut backend, _) = HookPlugin::new("/no/such/lib.so", &None).unwrap();
    let outcome = backend.started(false);
    assert_eq!(outcome, Err(HookError::LibraryLoad { path: "/no/such/lib.so".to_string() }));
    assert_eq!(outcome.unwrap_err().kind(), ErrorKind::LibraryLoad);
    assert_eq!(backend.phase(), Phase::Closed);
    assert_eq!(backend.shutdown(), Action::Idle);
}

#[test]
fn unawaited_code_is_refused() {
    let mut backend = live("libhook.so");
    assert_eq!(
        backend.reply(1),
        Err(HookError::Protocol {
            path: "libhook.so".to_string(),
            request: String::new(),
            fault: ProtocolFault::OutOfTurn,
        })
    );
    assert_eq!(backend.phase(), Phase::Ready);
}
