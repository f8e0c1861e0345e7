use plugin_bridge::adapter::HookAction;
use plugin_bridge::adapter::JsAdapterPlugin;
use plugin_bridge::adapter::PluginOptions;
use plugin_bridge::errors::BindError;
use plugin_bridge::errors::HookFailure;
use plugin_bridge::errors::InvokeError;
use plugin_bridge::handle::ExternalFnRef;
use plugin_bridge::hooks::HookKind;
use plugin_bridge::hooks::HookLoadArgs;
use plugin_bridge::hooks::HookResolveIdArgs;
use plugin_bridge::hooks::HookTransformArgs;
use plugin_bridge::hooks::PluginContext;
use plugin_bridge::hooks::ResolveIdResult;
use plugin_bridge::hooks::SourceResult;

fn good_ref(fn_id: u64) -> ExternalFnRef {
    ExternalFnRef { fn_id, valid: true, thread_safe: true }
}

fn adapter_with(
    resolve_id: Option<ExternalFnRef>,
    load: Option<ExternalFnRef>,
    transform: Option<ExternalFnRef>,
) -> JsAdapterPlugin {
    JsAdapterPlugin::new(PluginOptions {
        name: "test-plugin".to_string(),
        resolve_id,
        load,
        transform,
    })
    .expect("every supplied reference is bindable")
}

#[test]
fn unbound_resolve_id_declines_with_only_transform_bound() {
    let p = adapter_with(None, None, Some(good_ref(3)));
    let mut ctx = PluginContext {};
    let args = HookResolveIdArgs {
        source: "./foo.js".to_string(),
        importer: Some("/root/index.js".to_string()),
    };
    let action = p.resolve_id_request(&mut ctx, &args);
    assert!(matches!(action, HookAction::Done(Ok(None))));
}

#[test]
fn all_unbound_hooks_decline_without_scheduling() {
    let p = adapter_with(None, None, None);
    let mut ctx = PluginContext {};
    let r = p.resolve_id_request(
        &mut ctx,
        &HookResolveIdArgs { source: "a".to_string(), importer: None },
    );
    assert!(matches!(r, HookAction::Done(Ok(None))));
    let l = p.load_request(&mut ctx, &HookLoadArgs { id: "b".to_string() });
    assert!(matches!(l, HookAction::Done(Ok(None))));
    let t = p.transform_request(
        &mut ctx,
        &HookTransformArgs { code: "c".to_string(), id: "d".to_string() },
    );
    assert!(matches!(t, HookAction::Done(Ok(None))));
    assert!(p.resolve_id_callback().is_none());
    assert!(p.load_callback().is_none());
    assert!(p.transform_callback().is_none());
}

#[test]
fn load_hook_echoing_id_yields_source_outcome() {
    let p = adapter_with(None, Some(good_ref(11)), None);
    let mut ctx = PluginContext {};
    let args = HookLoadArgs { id: "virtual:entry".to_string() };
    let action = p.load_request(&mut ctx, &args);
    let sent = match action {
        HookAction::Call(t) => t,
        HookAction::Done(_) => panic!("a bound load hook must call the host"),
    };
    assert_eq!(sent.first, "virtual:entry");
    assert!(sent.second.is_none());
    // The host echoes the id back as the produced code.
    let reply = Ok(Some(SourceResult { code: sent.first.clone(), map: None }));
    let out = p.load_complete(reply).expect("a successful reply is no error");
    let record = out.expect("a present reply is a present outcome");
    assert_eq!(record.code, "virtual:entry");
    assert!(record.map.is_none());
}

#[test]
fn transform_host_failure_names_plugin_and_hook() {
    let p = adapter_with(None, None, Some(good_ref(5)));
    let mut ctx = PluginContext {};
    let args = HookTransformArgs { code: "bad code".to_string(), id: "file.js".to_string() };
    let action = p.transform_request(&mut ctx, &args);
    let sent = match action {
        HookAction::Call(t) => t,
        HookAction::Done(_) => panic!("a bound transform hook must call the host"),
    };
    assert_eq!(sent.first, "bad code");
    assert_eq!(sent.second.as_deref(), Some("file.js"));
    let reply = Err(InvokeError::HostFailure("unexpected token".to_string()));
    let err = p.transform_complete(reply).expect_err("a host failure must surface");
    assert_eq!(err.plugin, "test-plugin");
    assert_eq!(err.hook, HookKind::Transform);
    assert_eq!(
        err.cause,
        HookFailure::Invoke(InvokeError::HostFailure("unexpected token".to_string()))
    );
    assert_eq!(err.description(), "unexpected token");
}

#[test]
fn absent_host_result_means_hook_declined() {
    let p = adapter_with(Some(good_ref(1)), None, None);
    let out = p.resolve_id_complete(Ok(None)).expect("an absent reply is no error");
    assert!(out.is_none());
}

#[test]
fn present_host_result_decodes_losslessly() {
    let p = adapter_with(Some(good_ref(1)), None, None);
    let reply = Ok(Some(ResolveIdResult {
        id: "/resolved/foo.js".to_string(),
        external: Some(true),
    }));
    let out = p.resolve_id_complete(reply).expect("a successful reply is no error");
    let record = out.expect("a present reply is a present outcome");
    assert_eq!(record.id, "/resolved/foo.js");
    assert_eq!(record.external, Some(true));
}

#[test]
fn resolve_id_sends_source_and_importer() {
    let p = adapter_with(Some(good_ref(9)), None, None);
    let mut ctx = PluginContext {};
    let args = HookResolveIdArgs {
        source: "./dep.js".to_string(),
        importer: Some("/src/main.js".to_string()),
    };
    let action = p.resolve_id_request(&mut ctx, &args);
    match action {
        HookAction::Call(t) => {
            assert_eq!(t.first, "./dep.js");
            assert_eq!(t.second.as_deref(), Some("/src/main.js"));
        }
        HookAction::Done(_) => panic!("a bound resolve hook must call the host"),
    }
}

#[test]
fn name_is_kept_and_stable() {
    let p = adapter_with(None, None, None);
    assert_eq!(p.name(), "test-plugin");
    assert_eq!(p.name(), "test-plugin");
}

#[test]
fn each_hook_binds_to_its_own_slot() {
    let p = adapter_with(None, Some(good_ref(21)), None);
    assert!(p.resolve_id_callback().is_none());
    let h = p.load_callback().expect("the load slot was supplied");
    assert_eq!(h.fn_id, 21);
    assert!(p.transform_callback().is_none());
}

#[test]
fn invalid_reference_fails_construction() {
    let r = JsAdapterPlugin::new(PluginOptions {
        name: "p".to_string(),
        resolve_id: Some(ExternalFnRef { fn_id: 1, valid: false, thread_safe: true }),
        load: None,
        transform: None,
    });
    let err = r.expect_err("an invalid reference must refuse registration");
    assert_eq!(err.plugin, "p");
    assert_eq!(err.hook, HookKind::ResolveId);
    assert_eq!(err.cause, HookFailure::Bind(BindError::InvalidReference));
    assert_eq!(err.description(), "invalid callback reference");
}

#[test]
fn non_thread_safe_reference_fails_construction() {
    let r = JsAdapterPlugin::new(PluginOptions {
        name: "p".to_string(),
        resolve_id: None,
        load: None,
        transform: Some(ExternalFnRef { fn_id: 1, valid: true, thread_safe: false }),
    });
    let err = r.expect_err("a non-thread-safe reference must refuse registration");
    assert_eq!(err.hook, HookKind::Transform);
    assert_eq!(err.cause, HookFailure::Bind(BindError::NotThreadSafe));
}

#[test]
fn first_failing_slot_reports_its_error() {
    // The resolve slot is checked before the transform slot.
    let r = JsAdapterPlugin::new(PluginOptions {
        name: "p".to_string(),
        resolve_id: Some(ExternalFnRef { fn_id: 1, valid: true, thread_safe: false }),
        load: None,
        transform: Some(ExternalFnRef { fn_id: 2, valid: false, thread_safe: true }),
    });
    let err = r.expect_err("a failing slot must refuse registration");
    assert_eq!(err.hook, HookKind::ResolveId);
    assert_eq!(err.cause, HookFailure::Bind(BindError::NotThreadSafe));
}

#[test]
fn new_boxed_builds_the_same_adapter() {
    let p = JsAdapterPlugin::new_boxed(PluginOptions {
        name: "boxed".to_string(),
        resolve_id: Some(good_ref(4)),
        load: None,
        transform: None,
    })
    .expect("a bindable reference constructs");
    assert_eq!(p.name(), "boxed");
    let h = p.resolve_id_callback().expect("the resolve slot was supplied");
    assert_eq!(h.fn_id, 4);
}
