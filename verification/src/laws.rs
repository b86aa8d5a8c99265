//! What holds of every operation, proved from the model of the session and
//! of the system.

use crate::action::{ActionView, EventView, StepView};
use crate::config::{Platform, ProxyConfigView, ProxyRequestView};
use crate::script::{
    listing_action, service_disable_script, service_enable_script, services_script,
    windows_disable_script, windows_enable_script, windows_script, NETWORK_UTILITY, PROXY_ENABLE, PROXY_SERVER,
    SETTINGS_KEY, UNSUPPORTED_MESSAGE, WINHTTP_UTILITY,
};
use crate::services::{applicable_services, utf8_lossy};
use crate::session::{advance_model, begin_model, runnable, AwaitingView, SessionView};
use crate::system::{
    after, carried_out, effect, lemma_advance_nears_end, lemma_runnable_is_suffix, obeyed,
    pointed, proxies_off, run, run_from, stage, switched, Outcome, RegistryValue, System,
};
use crate::text::decimal;
use vstd::prelude::*;

verus! {

/// The actions of a sequence of steps.
pub open spec fn actions_of(steps: Seq<StepView>) -> Seq<ActionView> {
    steps.map_values(|step: StepView| step.action)
}

/// No step is mandatory.
pub open spec fn all_best_effort(steps: Seq<StepView>) -> bool {
    forall|i: int| 0 <= i < steps.len() ==> !(#[trigger] steps[i]).mandatory
}

/// No step needs the registry key.
pub open spec fn none_needs_key(steps: Seq<StepView>) -> bool {
    forall|i: int| 0 <= i < steps.len() ==> !(#[trigger] steps[i]).action.needs_key()
}

/// What holds of all steps holds of those that are left after some.
pub proof fn lemma_rest_is_alike(steps: Seq<StepView>, from: int)
    requires
        0 <= from <= steps.len(),
    ensures
        all_best_effort(steps) ==> all_best_effort(steps.skip(from)),
        none_needs_key(steps) ==> none_needs_key(steps.skip(from)),
{
    if all_best_effort(steps) {
        assert forall|i: int| 0 <= i < steps.skip(from).len() implies !(#[trigger] steps.skip(
            from,
        )[i]).mandatory by {
            assert(steps.skip(from)[i] == steps[from + i]);
        }
    }
    if none_needs_key(steps) {
        assert forall|i: int| 0 <= i < steps.skip(from).len() implies !(#[trigger] steps.skip(
            from,
        )[i]).action.needs_key() by {
            assert(steps.skip(from)[i] == steps[from + i]);
        }
    }
}

/// Among the steps that can be carried out, the first needs no key that is
/// not open.
pub proof fn lemma_runnable_head(pending: Seq<StepView>, key_open: bool)
    ensures
        runnable(pending, key_open).len() > 0 && runnable(pending, key_open)[0].action.needs_key()
            ==> key_open,
    decreases pending.len(),
{
    if pending.len() > 0 && pending[0].action.needs_key() && !key_open {
        lemma_runnable_head(pending.skip(1), key_open);
    }
}

/// A session hands out an action on the registry key only once the key was
/// opened: at the beginning never, and after an event only where the
/// session holds the key open.
pub proof fn values_are_written_under_an_open_key(
    platform: Platform,
    request: ProxyRequestView,
    s: SessionView,
    event: EventView,
)
    ensures
        !begin_model(platform, request).1.needs_key(),
        !begin_model(platform, request).0.key_open,
        advance_model(s, event).1.needs_key() ==> advance_model(s, event).0.key_open,
        advance_model(s, event).0.key_open ==> s.key_open || (event is Done && s.awaiting is Step
            && s.awaiting->opens_key),
{
    lemma_runnable_head(windows_script(request), false);
    lemma_runnable_head(s.pending, true);
    lemma_runnable_head(s.pending, false);
    match s.awaiting {
        AwaitingView::Listing => {
            if let EventView::Done { output } = event {
                lemma_runnable_head(
                    services_script(s.request, applicable_services(utf8_lossy(output))),
                    s.key_open,
                );
            }
        },
        _ => {},
    }
}

/// On a platform that is not supported an operation fails at once, with the
/// message that says so, and hands out no action: the system is untouched.
pub proof fn unsupported_platform_rejects(
    request: ProxyRequestView,
    system: System,
    events: spec_fn(nat) -> EventView,
)
    ensures
        begin_model(Platform::Unsupported, request).1 == (ActionView::Finish {
            result: Err(UNSUPPORTED_MESSAGE@),
        }),
        run(Platform::Unsupported, request, system, events) == (Outcome {
            system,
            actions: Seq::empty(),
            result: Err(UNSUPPORTED_MESSAGE@),
        }),
{
}

/// Once nothing mandatory is left, an operation succeeds whatever fails.
pub proof fn lemma_best_effort_succeeds(
    s: SessionView,
    action: ActionView,
    system: System,
    events: spec_fn(nat) -> EventView,
    at: nat,
)
    requires
        s.awaiting matches AwaitingView::Step { mandatory, opens_key } && !mandatory,
        all_best_effort(s.pending),
    ensures
        run_from(s, action, system, events, at).result == Ok::<(), Seq<char>>(()),
    decreases s.pending.len(),
{
    let event = events(at);
    let next = advance_model(s, event);
    lemma_runnable_is_suffix(s.pending, next.0.key_open);
    let rest = runnable(s.pending, next.0.key_open);
    lemma_rest_is_alike(s.pending, s.pending.len() - rest.len());
    if rest.len() > 0 {
        assert(next.0.pending == rest.skip(1));
        lemma_rest_is_alike(rest, 1);
        assert(!rest[0].mandatory);
        lemma_best_effort_succeeds(
            next.0,
            next.1,
            after(system, action, event),
            events,
            at + 1,
        );
    } else {
        assert(next.0.awaiting == AwaitingView::Finished { result: Ok::<(), Seq<char>>(()) });
        assert(run_from(next.0, next.1, after(system, action, event), events, at + 1).result
            == Ok::<(), Seq<char>>(()));
    }
}

/// Once nothing mandatory is left and no step needs the registry key, every
/// pending step is handed out, in order, whatever fails.
pub proof fn lemma_best_effort_actions(
    s: SessionView,
    action: ActionView,
    system: System,
    events: spec_fn(nat) -> EventView,
    at: nat,
)
    requires
        s.awaiting matches AwaitingView::Step { mandatory, opens_key } && !mandatory,
        all_best_effort(s.pending),
        none_needs_key(s.pending),
    ensures
        run_from(s, action, system, events, at).actions == seq![action] + actions_of(s.pending),
    decreases s.pending.len(),
{
    let event = events(at);
    let next = advance_model(s, event);
    if s.pending.len() > 0 {
        assert(!s.pending[0].action.needs_key());
        assert(runnable(s.pending, next.0.key_open) == s.pending);
        assert(!s.pending[0].mandatory);
        lemma_rest_is_alike(s.pending, 1);
        lemma_best_effort_actions(next.0, next.1, after(system, action, event), events, at + 1);
        assert(seq![action] + (seq![next.1] + actions_of(next.0.pending)) =~= seq![action]
            + actions_of(s.pending));
    } else {
        assert(next.0.awaiting is Finished);
        assert(run_from(next.0, next.1, after(system, action, event), events, at + 1).actions
            == Seq::<ActionView>::empty());
        assert(seq![action] + Seq::<ActionView>::empty() =~= seq![action] + actions_of(
            s.pending,
        ));
    }
}

/// The number of commands that an operation issues for each service on
/// macOS: four to enable, three to disable.
pub open spec fn commands_per_service(request: ProxyRequestView) -> nat {
    match request {
        ProxyRequestView::Enable(config) => 4,
        ProxyRequestView::Disable => 3,
    }
}

/// The steps for the services of macOS: so many for each service, none of
/// them mandatory, none on the registry.
pub proof fn lemma_services_script(request: ProxyRequestView, services: Seq<Seq<char>>)
    ensures
        services_script(request, services).len() == commands_per_service(request)
            * services.len(),
        all_best_effort(services_script(request, services)),
        none_needs_key(services_script(request, services)),
    decreases services.len(),
{
    if services.len() > 0 {
        lemma_services_script(request, services.drop_last());
        let n = commands_per_service(request);
        assert(n * services.len() == n * (services.len() - 1) + n) by (nonlinear_arith);
    }
}

/// On macOS an operation that could list the services issues, after the
/// listing command, the commands for each service that the listing names,
/// one service after the other, and no other command: whichever of them
/// fail, none is left out and the operation succeeds.
pub proof fn macos_configures_each_service(
    request: ProxyRequestView,
    system: System,
    events: spec_fn(nat) -> EventView,
)
    requires
        events(0) is Done,
    ensures
        ({
            let services = applicable_services(utf8_lossy(events(0)->output));
            let outcome = run(Platform::MacOs, request, system, events);
            &&& outcome.actions == seq![listing_action()] + actions_of(
                services_script(request, services),
            )
            &&& outcome.actions.len() == 1 + commands_per_service(request) * services.len()
            &&& outcome.result == Ok::<(), Seq<char>>(())
        }),
{
    let services = applicable_services(utf8_lossy(events(0)->output));
    let script = services_script(request, services);
    lemma_services_script(request, services);
    let begun = begin_model(Platform::MacOs, request);
    let next = advance_model(begun.0, events(0));
    let then = after(system, begun.1, events(0));
    assert(runnable(script, false) == script);
    if script.len() > 0 {
        assert(!script[0].mandatory);
        lemma_rest_is_alike(script, 1);
        lemma_best_effort_actions(next.0, next.1, then, events, 1);
        lemma_best_effort_succeeds(next.0, next.1, then, events, 1);
        assert(seq![next.1] + actions_of(next.0.pending) =~= actions_of(script));
    } else {
        assert(next.0.awaiting is Finished);
        assert(run_from(next.0, next.1, then, events, 1).actions == Seq::<ActionView>::empty());
        assert(actions_of(script) =~= Seq::<ActionView>::empty());
    }
}

/// On macOS an operation fails only where the services cannot be listed,
/// and then with the message of that failure and without any other command.
pub proof fn macos_fails_only_on_listing(
    request: ProxyRequestView,
    system: System,
    events: spec_fn(nat) -> EventView,
)
    ensures
        ({
            let outcome = run(Platform::MacOs, request, system, events);
            match events(0) {
                EventView::Failed { message } => outcome == (Outcome {
                    system,
                    actions: seq![listing_action()],
                    result: Err(message),
                }),
                EventView::Done { output } => outcome.result == Ok::<(), Seq<char>>(()),
            }
        }),
{
    let begun = begin_model(Platform::MacOs, request);
    let next = advance_model(begun.0, events(0));
    let then = after(system, begun.1, events(0));
    match events(0) {
        EventView::Failed { message } => {
            assert(next.0.awaiting is Finished);
            assert(run_from(next.0, next.1, then, events, 1).actions == Seq::<
                ActionView,
            >::empty());
            assert(seq![listing_action()] + Seq::<ActionView>::empty() =~= seq![
                listing_action(),
            ]);
        },
        EventView::Done { output } => {
            macos_configures_each_service(request, system, events);
        },
    }
}

/// The two values of the proxy settings have different names.
pub proof fn lemma_value_names_differ()
    ensures
        PROXY_ENABLE@ != PROXY_SERVER@,
{
    reveal_strlit("ProxyEnable");
    reveal_strlit("ProxyServer");
    assert(PROXY_ENABLE@[5] == 'E');
    assert(PROXY_SERVER@[5] == 'S');
}

/// The value that switches the proxy on and off, where it is set.
pub open spec fn proxy_enable(system: System) -> Option<RegistryValue> {
    if system.registry.contains_key((SETTINGS_KEY@, PROXY_ENABLE@)) {
        Some(system.registry[(SETTINGS_KEY@, PROXY_ENABLE@)])
    } else {
        None
    }
}

/// The value that holds the endpoint, where it is set.
pub open spec fn proxy_server(system: System) -> Option<RegistryValue> {
    if system.registry.contains_key((SETTINGS_KEY@, PROXY_SERVER@)) {
        Some(system.registry[(SETTINGS_KEY@, PROXY_SERVER@)])
    } else {
        None
    }
}

/// On Windows, `Enable` succeeds exactly where the key could be opened and
/// both values written; it fails with the message of the first of these
/// three that failed, and does nothing after it. Where it succeeds, the
/// switch is 1 and the endpoint is `host:port`, whatever became of the
/// broadcast and of the WinHTTP proxy.
pub proof fn windows_enable_writes_endpoint(
    config: ProxyConfigView,
    system: System,
    events: spec_fn(nat) -> EventView,
)
    ensures
        ({
            let outcome = run(Platform::Windows, ProxyRequestView::Enable(config), system, events);
            let script = actions_of(windows_enable_script(config));
            &&& events(0) is Failed ==> outcome == (Outcome {
                system,
                actions: script.take(1),
                result: Err(events(0)->message),
            })
            &&& events(0) is Done && events(1) is Failed ==> {
                &&& outcome.actions == script.take(2)
                &&& outcome.result == Err::<(), Seq<char>>(events(1)->message)
            }
            &&& events(0) is Done && events(1) is Done && events(2) is Failed ==> {
                &&& outcome.actions == script.take(3)
                &&& outcome.result == Err::<(), Seq<char>>(events(2)->message)
            }
            &&& events(0) is Done && events(1) is Done && events(2) is Done ==> {
                &&& outcome.actions == script
                &&& outcome.result == Ok::<(), Seq<char>>(())
                &&& proxy_enable(outcome.system) == Some(RegistryValue::Number(1))
                &&& proxy_server(outcome.system) == Some(RegistryValue::Text(config.endpoint()))
            }
        }),
{
    reveal_with_fuel(run_from, 7);
    reveal_with_fuel(runnable, 2);
    lemma_value_names_differ();
    let outcome = run(Platform::Windows, ProxyRequestView::Enable(config), system, events);
    let script = actions_of(windows_enable_script(config));
    if events(0) is Failed {
        assert(outcome.actions =~= script.take(1));
    } else if events(1) is Failed {
        assert(outcome.actions =~= script.take(2));
    } else if events(2) is Failed {
        assert(outcome.actions =~= script.take(3));
    } else {
        assert(outcome.actions =~= script);
    }
}

/// On Windows, `Disable` always succeeds. Where the key could be opened,
/// all five steps are tried: the switch is 0 if it could be written and
/// else as it was, the endpoint is gone if it could be deleted and else as
/// it was. Where the key could not be opened, the two values are left out
/// and left alone; the broadcast and the WinHTTP reset are tried all the
/// same.
pub proof fn windows_disable_clears_settings(system: System, events: spec_fn(nat) -> EventView)
    ensures
        ({
            let outcome = run(Platform::Windows, ProxyRequestView::Disable, system, events);
            let script = actions_of(windows_disable_script());
            &&& outcome.result == Ok::<(), Seq<char>>(())
            &&& events(0) is Done ==> {
                &&& outcome.actions == script
                &&& proxy_enable(outcome.system) == if events(1) is Done {
                    Some(RegistryValue::Number(0))
                } else {
                    proxy_enable(system)
                }
                &&& proxy_server(outcome.system) == if events(2) is Done {
                    None
                } else {
                    proxy_server(system)
                }
            }
            &&& events(0) is Failed ==> {
                &&& outcome.actions == script.take(1) + script.skip(3)
                &&& outcome.system.registry == system.registry
            }
        }),
{
    reveal_with_fuel(run_from, 7);
    reveal_with_fuel(runnable, 4);
    lemma_value_names_differ();
    let outcome = run(Platform::Windows, ProxyRequestView::Disable, system, events);
    let script = actions_of(windows_disable_script());
    if events(0) is Done {
        assert(outcome.actions =~= script);
    } else {
        assert(outcome.actions =~= script.take(1) + script.skip(3));
    }
}

/// `Disable` succeeds a second time as it did the first: on Windows
/// whatever fails, on macOS as long as the services can be listed.
pub proof fn disable_twice_succeeds(
    platform: Platform,
    system: System,
    first: spec_fn(nat) -> EventView,
    second: spec_fn(nat) -> EventView,
)
    requires
        platform != Platform::Unsupported,
        platform == Platform::MacOs ==> first(0) is Done && second(0) is Done,
    ensures
        ({
            let once = run(platform, ProxyRequestView::Disable, system, first);
            let twice = run(platform, ProxyRequestView::Disable, once.system, second);
            once.result == Ok::<(), Seq<char>>(()) && twice.result == Ok::<(), Seq<char>>(())
        }),
{
    let once = run(platform, ProxyRequestView::Disable, system, first);
    match platform {
        Platform::Windows => {
            windows_disable_clears_settings(system, first);
            windows_disable_clears_settings(once.system, second);
        },
        Platform::MacOs => {
            macos_fails_only_on_listing(ProxyRequestView::Disable, system, first);
            macos_fails_only_on_listing(ProxyRequestView::Disable, once.system, second);
        },
        Platform::Unsupported => {},
    }
}

/// Carrying out a first action and then others is carrying out the others
/// on what the first has made of the system.
pub proof fn lemma_carried_out_first(system: System, first: ActionView, others: Seq<ActionView>)
    ensures
        carried_out(system, seq![first] + others) == carried_out(effect(system, first), others),
    decreases others.len(),
{
    let all = seq![first] + others;
    if others.len() == 0 {
        assert(all.drop_last() =~= Seq::<ActionView>::empty());
        assert(carried_out(system, all.drop_last()) == system);
    } else {
        assert(all.drop_last() =~= seq![first] + others.drop_last());
        lemma_carried_out_first(system, first, others.drop_last());
    }
}

/// Carrying out two sequences of actions, one after the other.
pub proof fn lemma_carried_out_both(system: System, a: Seq<ActionView>, b: Seq<ActionView>)
    ensures
        carried_out(system, a + b) == carried_out(carried_out(system, a), b),
    decreases b.len(),
{
    if b.len() == 0 {
        assert(a + b =~= a);
    } else {
        assert((a + b).drop_last() =~= a + b.drop_last());
        lemma_carried_out_both(system, a, b.drop_last());
    }
}

/// No action changes what the listing command writes.
pub proof fn lemma_run_keeps_listing(
    s: SessionView,
    action: ActionView,
    system: System,
    events: spec_fn(nat) -> EventView,
    at: nat,
)
    ensures
        run_from(s, action, system, events, at).system.listing == system.listing,
    decreases stage(s.awaiting), s.pending.len(),
{
    if !(s.awaiting is Finished) {
        let event = events(at);
        let next = advance_model(s, event);
        lemma_advance_nears_end(s, event);
        lemma_run_keeps_listing(next.0, next.1, after(system, action, event), events, at + 1);
    }
}

/// Where every action is carried out and none needs the registry key, the
/// system ends as the action in hand and the pending ones make it.
pub proof fn lemma_obeyed_commands(
    s: SessionView,
    action: ActionView,
    system: System,
    events: spec_fn(nat) -> EventView,
    at: nat,
)
    requires
        s.awaiting is Step,
        none_needs_key(s.pending),
        forall|i: nat| (#[trigger] events(i)) is Done,
    ensures
        run_from(s, action, system, events, at).system == carried_out(
            system,
            seq![action] + actions_of(s.pending),
        ),
    decreases s.pending.len(),
{
    let event = events(at);
    let next = advance_model(s, event);
    let then = after(system, action, event);
    assert(then == effect(system, action));
    lemma_carried_out_first(system, action, actions_of(s.pending));
    if s.pending.len() > 0 {
        assert(!s.pending[0].action.needs_key());
        assert(runnable(s.pending, next.0.key_open) == s.pending);
        lemma_rest_is_alike(s.pending, 1);
        lemma_obeyed_commands(next.0, next.1, then, events, at + 1);
        assert(seq![next.1] + actions_of(next.0.pending) =~= actions_of(s.pending));
    } else {
        assert(next.0.awaiting is Finished);
        assert(run_from(next.0, next.1, then, events, at + 1).system == then);
        assert(actions_of(s.pending) =~= Seq::<ActionView>::empty());
        assert(carried_out(then, actions_of(s.pending)) == then);
    }
}

/// The commands that disable one service switch its three proxies off and
/// leave off what was off.
pub proof fn lemma_disable_switches_off(system: System, service: Seq<char>)
    ensures
        ({
            let then = carried_out(system, actions_of(service_disable_script(service)));
            &&& proxies_off(then, service)
            &&& forall|other: Seq<char>| proxies_off(system, other) ==> proxies_off(then, other)
            &&& then.listing == system.listing
        }),
{
    reveal_strlit("netsh");
    reveal_strlit("networksetup");
    reveal_strlit("on");
    reveal_strlit("off");
    reveal_strlit("-setwebproxystate");
    reveal_strlit("-setsecurewebproxystate");
    reveal_strlit("-setsocksfirewallproxystate");
    assert(WINHTTP_UTILITY@.len() != NETWORK_UTILITY@.len());
    assert("on"@.len() != "off"@.len());
    assert("-setwebproxystate"@.len() != "-setsecurewebproxystate"@.len());
    assert("-setwebproxystate"@.len() != "-setsocksfirewallproxystate"@.len());
    assert("-setsecurewebproxystate"@.len() != "-setsocksfirewallproxystate"@.len());
    let actions = actions_of(service_disable_script(service));
    reveal_with_fuel(carried_out, 4);
    assert(actions.drop_last().drop_last().drop_last() =~= Seq::<ActionView>::empty());
    let a = effect(system, actions[0]);
    let b = effect(a, actions[1]);
    let c = effect(b, actions[2]);
    assert(actions.drop_last().drop_last() =~= seq![actions[0]]);
    assert(actions.drop_last() =~= seq![actions[0], actions[1]]);
    assert(carried_out(system, actions.drop_last().drop_last()) == a);
    assert(carried_out(system, actions.drop_last()) == b);
    assert(carried_out(system, actions) == c);
    assert(a.web == switched(system.web, service, "off"@));
    assert(b.secure_web == switched(system.secure_web, service, "off"@));
    assert(c.socks == switched(system.socks, service, "off"@));
}

/// The commands that disable all `services` leave every proxy of each of
/// them off.
pub proof fn lemma_disable_all_switches_off(system: System, services: Seq<Seq<char>>)
    ensures
        ({
            let then = carried_out(
                system,
                actions_of(services_script(ProxyRequestView::Disable, services)),
            );
            &&& forall|i: int| 0 <= i < services.len() ==> proxies_off(then, #[trigger] services[i])
            &&& forall|other: Seq<char>| proxies_off(system, other) ==> proxies_off(then, other)
        }),
    decreases services.len(),
{
    let request = ProxyRequestView::Disable;
    if services.len() > 0 {
        let before = services.drop_last();
        let head = actions_of(services_script(request, before));
        let tail = actions_of(service_disable_script(services.last()));
        lemma_disable_all_switches_off(system, before);
        assert(actions_of(services_script(request, services)) =~= head + tail);
        lemma_carried_out_both(system, head, tail);
        let middle = carried_out(system, head);
        lemma_disable_switches_off(middle, services.last());
        let then = carried_out(middle, tail);
        assert forall|i: int| 0 <= i < services.len() implies proxies_off(
            then,
            #[trigger] services[i],
        ) by {
            if i < services.len() - 1 {
                assert(before[i] == services[i]);
                assert(proxies_off(middle, before[i]));
            }
        }
    } else {
        assert(actions_of(services_script(request, services)) =~= Seq::<ActionView>::empty());
    }
}

/// On macOS, where the system does all that is asked of it, an operation
/// ends with the system as the commands for the listed services make it.
pub proof fn lemma_obeyed_macos_run(
    request: ProxyRequestView,
    system: System,
    events: spec_fn(nat) -> EventView,
)
    requires
        obeyed(events, system),
    ensures
        run(Platform::MacOs, request, system, events).system == carried_out(
            system,
            actions_of(
                services_script(request, applicable_services(utf8_lossy(system.listing))),
            ),
        ),
{
    let services = applicable_services(utf8_lossy(system.listing));
    let script = services_script(request, services);
    lemma_services_script(request, services);
    let begun = begin_model(Platform::MacOs, request);
    let next = advance_model(begun.0, events(0));
    let listed = after(system, begun.1, events(0));
    reveal_strlit("netsh");
    reveal_strlit("networksetup");
    assert(WINHTTP_UTILITY@.len() != NETWORK_UTILITY@.len());
    assert(listed == system);
    assert(runnable(script, false) == script);
    if script.len() > 0 {
        lemma_rest_is_alike(script, 1);
        lemma_obeyed_commands(next.0, next.1, listed, events, 1);
        assert(seq![next.1] + actions_of(next.0.pending) =~= actions_of(script));
    } else {
        assert(next.0.awaiting is Finished);
        assert(run_from(next.0, next.1, listed, events, 1).system == listed);
        assert(actions_of(script) =~= Seq::<ActionView>::empty());
    }
}

/// On `system`, the web and the secure web proxy of `service` are on and
/// point at the endpoint of `config`.
pub open spec fn proxies_point(system: System, service: Seq<char>, config: ProxyConfigView) -> bool {
    let target = pointed(config.host, decimal(config.port as nat));
    &&& system.web.contains_key(service) && system.web[service] == target
    &&& system.secure_web.contains_key(service) && system.secure_web[service] == target
}

/// The commands that enable one service point its two proxies at the
/// endpoint and leave alone what pointed there.
pub proof fn lemma_enable_points(system: System, service: Seq<char>, config: ProxyConfigView)
    ensures
        ({
            let then = carried_out(system, actions_of(service_enable_script(service, config)));
            &&& proxies_point(then, service, config)
            &&& forall|other: Seq<char>|
                proxies_point(system, other, config) ==> proxies_point(then, other, config)
        }),
{
    reveal_strlit("netsh");
    reveal_strlit("networksetup");
    reveal_strlit("-setwebproxy");
    reveal_strlit("-setsecurewebproxy");
    reveal_strlit("-setwebproxystate");
    reveal_strlit("-setsecurewebproxystate");
    assert(WINHTTP_UTILITY@.len() != NETWORK_UTILITY@.len());
    assert("-setwebproxy"@.len() != "-setsecurewebproxy"@.len());
    assert("-setwebproxystate"@.len() != "-setsecurewebproxystate"@.len());
    let actions = actions_of(service_enable_script(service, config));
    let target = pointed(config.host, decimal(config.port as nat));
    reveal_with_fuel(carried_out, 5);
    let a = effect(system, actions[0]);
    let b = effect(a, actions[1]);
    let c = effect(b, actions[2]);
    let d = effect(c, actions[3]);
    assert(actions.drop_last() =~= seq![actions[0], actions[1], actions[2]]);
    assert(actions.drop_last().drop_last() =~= seq![actions[0], actions[1]]);
    assert(actions.drop_last().drop_last().drop_last() =~= seq![actions[0]]);
    assert(actions.drop_last().drop_last().drop_last().drop_last() =~= Seq::<
        ActionView,
    >::empty());
    assert(carried_out(system, actions.drop_last().drop_last().drop_last()) == a);
    assert(carried_out(system, actions.drop_last().drop_last()) == b);
    assert(carried_out(system, actions.drop_last()) == c);
    assert(carried_out(system, actions) == d);
    assert(a.web == system.web.insert(service, target));
    assert(b.secure_web == system.secure_web.insert(service, target));
    assert(c.web == switched(b.web, service, "on"@));
    assert(d.secure_web == switched(c.secure_web, service, "on"@));
    assert(c.web[service] == target);
    assert(d.secure_web[service] == target);
    assert forall|other: Seq<char>| proxies_point(system, other, config) implies proxies_point(
        d,
        other,
        config,
    ) by {
        if other == service {
        } else {
            assert(d.web[other] == system.web[other]);
            assert(d.secure_web[other] == system.secure_web[other]);
        }
    }
}

/// The commands that enable all `services` point the two proxies of each of
/// them at the endpoint.
pub proof fn lemma_enable_all_points(
    system: System,
    services: Seq<Seq<char>>,
    config: ProxyConfigView,
)
    ensures
        ({
            let then = carried_out(
                system,
                actions_of(services_script(ProxyRequestView::Enable(config), services)),
            );
            &&& forall|i: int|
                0 <= i < services.len() ==> proxies_point(then, #[trigger] services[i], config)
            &&& forall|other: Seq<char>|
                proxies_point(system, other, config) ==> proxies_point(then, other, config)
        }),
    decreases services.len(),
{
    let request = ProxyRequestView::Enable(config);
    if services.len() > 0 {
        let before = services.drop_last();
        let head = actions_of(services_script(request, before));
        let tail = actions_of(service_enable_script(services.last(), config));
        lemma_enable_all_points(system, before, config);
        assert(actions_of(services_script(request, services)) =~= head + tail);
        lemma_carried_out_both(system, head, tail);
        let middle = carried_out(system, head);
        lemma_enable_points(middle, services.last(), config);
        let then = carried_out(middle, tail);
        assert forall|i: int| 0 <= i < services.len() implies proxies_point(
            then,
            #[trigger] services[i],
            config,
        ) by {
            if i < services.len() - 1 {
                assert(before[i] == services[i]);
                assert(proxies_point(middle, before[i], config));
            }
        }
    } else {
        assert(actions_of(services_script(request, services)) =~= Seq::<ActionView>::empty());
    }
}

/// After an `Enable` on a system that does all that is asked of it, the
/// proxy is on and points at the endpoint wherever it applies: on Windows
/// the switch is 1 and the endpoint is `host:port`; on macOS the web and the
/// secure web proxy of every service that the listing names are on and
/// point at host and port.
pub proof fn enable_points_the_proxy_everywhere(
    platform: Platform,
    config: ProxyConfigView,
    system: System,
    events: spec_fn(nat) -> EventView,
)
    requires
        platform != Platform::Unsupported,
        config.is_valid(),
        obeyed(events, system),
    ensures
        ({
            let enabled = run(platform, ProxyRequestView::Enable(config), system, events);
            &&& enabled.result == Ok::<(), Seq<char>>(())
            &&& platform == Platform::Windows ==> {
                &&& proxy_enable(enabled.system) == Some(RegistryValue::Number(1))
                &&& proxy_server(enabled.system) == Some(RegistryValue::Text(config.endpoint()))
            }
            &&& platform == Platform::MacOs ==> forall|service: Seq<char>|
                #![trigger proxies_point(enabled.system, service, config)]
                applicable_services(utf8_lossy(system.listing)).contains(service)
                    ==> proxies_point(enabled.system, service, config)
        }),
{
    let request = ProxyRequestView::Enable(config);
    let enabled = run(platform, request, system, events);
    assert(events(0) is Done);
    assert(events(1) is Done);
    assert(events(2) is Done);
    match platform {
        Platform::Windows => {
            windows_enable_writes_endpoint(config, system, events);
        },
        Platform::MacOs => {
            let services = applicable_services(utf8_lossy(system.listing));
            macos_fails_only_on_listing(request, system, events);
            lemma_obeyed_macos_run(request, system, events);
            lemma_enable_all_points(system, services, config);
            assert forall|service: Seq<char>| services.contains(service) implies proxies_point(
                enabled.system,
                service,
                config,
            ) by {
                let i = choose|i: int| 0 <= i < services.len() && services[i] == service;
                assert(proxies_point(enabled.system, services[i], config));
            }
        },
        Platform::Unsupported => {},
    }
}

/// `Enable` and then `Disable`, on a system that does all that `Disable`
/// asks of it, leave the proxy off: on Windows the switch is 0 and the
/// endpoint is gone; on macOS every proxy of every service that the listing
/// names is off. This holds however `Enable` went.
pub proof fn enable_then_disable_leaves_proxy_off(
    platform: Platform,
    config: ProxyConfigView,
    system: System,
    first: spec_fn(nat) -> EventView,
    second: spec_fn(nat) -> EventView,
)
    requires
        platform != Platform::Unsupported,
        config.is_valid(),
        obeyed(second, run(platform, ProxyRequestView::Enable(config), system, first).system),
    ensures
        ({
            let enabled = run(platform, ProxyRequestView::Enable(config), system, first);
            let disabled = run(platform, ProxyRequestView::Disable, enabled.system, second);
            &&& disabled.result == Ok::<(), Seq<char>>(())
            &&& platform == Platform::Windows ==> {
                &&& proxy_enable(disabled.system) == Some(RegistryValue::Number(0))
                &&& proxy_server(disabled.system) is None
            }
            &&& platform == Platform::MacOs ==> forall|service: Seq<char>|
                #![trigger proxies_off(disabled.system, service)]
                applicable_services(utf8_lossy(system.listing)).contains(service) ==> proxies_off(
                    disabled.system,
                    service,
                )
        }),
{
    let request = ProxyRequestView::Disable;
    let enabled = run(platform, ProxyRequestView::Enable(config), system, first);
    let disabled = run(platform, request, enabled.system, second);
    assert(second(0) is Done);
    assert(second(1) is Done);
    assert(second(2) is Done);
    match platform {
        Platform::Windows => {
            windows_disable_clears_settings(enabled.system, second);
        },
        Platform::MacOs => {
            let begun = begin_model(platform, ProxyRequestView::Enable(config));
            lemma_run_keeps_listing(begun.0, begun.1, system, first, 0);
            let services = applicable_services(utf8_lossy(system.listing));
            macos_fails_only_on_listing(request, enabled.system, second);
            lemma_obeyed_macos_run(request, enabled.system, second);
            lemma_disable_all_switches_off(enabled.system, services);
            assert forall|service: Seq<char>| services.contains(service) implies proxies_off(
                disabled.system,
                service,
            ) by {
                let i = choose|i: int| 0 <= i < services.len() && services[i] == service;
                assert(proxies_off(disabled.system, services[i]));
            }
        },
        Platform::Unsupported => {},
    }
}

} // verus!
