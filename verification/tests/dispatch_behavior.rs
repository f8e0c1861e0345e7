use plugin_bridge::adapter::HookAction;
use plugin_bridge::adapter::JsAdapterPlugin;
use plugin_bridge::adapter::PluginOptions;
use plugin_bridge::dispatch::Dispatcher;
use plugin_bridge::handle::CallbackHandle;
use plugin_bridge::handle::ExternalFnRef;
use plugin_bridge::hooks::ArgTuple;
use plugin_bridge::hooks::HookResolveIdArgs;
use plugin_bridge::hooks::PluginContext;
use plugin_bridge::hooks::ResolveIdResult;

#[test]
fn tickets_are_fresh_per_submission() {
    let h = CallbackHandle { fn_id: 1 };
    let mut d: Dispatcher<ResolveIdResult> = Dispatcher::new(&h);
    let a = d.submit(ArgTuple { first: "a".to_string(), second: None });
    let b = d.submit(ArgTuple { first: "b".to_string(), second: None });
    let c = d.submit(ArgTuple { first: "c".to_string(), second: None });
    assert_ne!(a, b);
    assert_ne!(a, c);
    assert_ne!(b, c);
    assert_eq!(d.pending.len(), 3);
}

#[test]
fn at_most_one_call_runs_at_a_time() {
    let h = CallbackHandle { fn_id: 2 };
    let mut d: Dispatcher<ResolveIdResult> = Dispatcher::new(&h);
    d.submit(ArgTuple { first: "a".to_string(), second: None });
    d.submit(ArgTuple { first: "b".to_string(), second: None });
    let first = d.begin().expect("a queued call starts on an idle host");
    assert_eq!(first.args.first, "a");
    // While one call is on the host's thread, nothing else may start.
    assert!(d.begin().is_none());
    d.complete(Ok(None));
    let second = d.begin().expect("the next call starts once the host is free");
    assert_eq!(second.args.first, "b");
}

#[test]
fn begin_on_empty_queue_does_nothing() {
    let h = CallbackHandle { fn_id: 3 };
    let mut d: Dispatcher<ResolveIdResult> = Dispatcher::new(&h);
    assert!(d.begin().is_none());
    assert_eq!(d.served.len(), 0);
}

#[test]
fn completion_is_recorded_under_the_running_ticket() {
    let h = CallbackHandle { fn_id: 4 };
    let mut d: Dispatcher<ResolveIdResult> = Dispatcher::new(&h);
    let t = d.submit(ArgTuple { first: "mod".to_string(), second: None });
    let started = d.begin().expect("a queued call starts on an idle host");
    assert_eq!(started.ticket, t);
    let done = d.complete(Ok(Some(ResolveIdResult {
        id: "/mod.js".to_string(),
        external: None,
    })));
    assert_eq!(done, t);
    assert_eq!(d.served.len(), 1);
    assert_eq!(d.served[0].ticket, t);
}

#[test]
fn concurrent_resolve_calls_yield_each_their_own_result() {
    // Many pipeline tasks issue resolve calls through one adapter at once;
    // the host serves them one at a time, in whatever order, and every
    // caller must get the result computed from its own arguments.
    let p = JsAdapterPlugin::new(PluginOptions {
        name: "concurrent".to_string(),
        resolve_id: Some(ExternalFnRef { fn_id: 7, valid: true, thread_safe: true }),
        load: None,
        transform: None,
    })
    .expect("a bindable reference constructs");
    let h = p.resolve_id_callback().expect("the resolve slot was supplied");
    let mut d: Dispatcher<ResolveIdResult> = Dispatcher::new(&h);
    let mut ctx = PluginContext {};

    let n: usize = 8;
    let mut tickets: Vec<u64> = Vec::new();
    let mut sources: Vec<String> = Vec::new();
    for i in 0..n {
        let source = format!("./module-{}.js", i);
        let args = HookResolveIdArgs { source: source.clone(), importer: None };
        let sent = match p.resolve_id_request(&mut ctx, &args) {
            HookAction::Call(t) => t,
            HookAction::Done(_) => panic!("a bound resolve hook must call the host"),
        };
        tickets.push(d.submit(sent));
        sources.push(source);
    }

    // The host's single thread drains the queue, one call at a time,
    // computing each reply from the arguments it was handed.
    while let Some(call) = d.begin() {
        assert!(d.begin().is_none());
        let reply = Ok(Some(ResolveIdResult {
            id: format!("/resolved/{}", call.args.first),
            external: None,
        }));
        d.complete(reply);
    }

    assert_eq!(d.served.len(), n);
    for i in 0..n {
        let completed = d
            .served
            .iter()
            .find(|c| c.ticket == tickets[i])
            .expect("every submission is answered exactly once");
        let reply = completed.reply.as_ref().expect("the host succeeded");
        let record = reply.as_ref().expect("the host returned a record");
        assert_eq!(record.id, format!("/resolved/{}", sources[i]));
        let outcome = p
            .resolve_id_complete(Ok(Some(ResolveIdResult {
                id: record.id.clone(),
                external: record.external,
            })))
            .expect("a successful reply is no error")
            .expect("a present reply is a present outcome");
        assert_eq!(outcome.id, format!("/resolved/./module-{}.js", i));
    }
}
