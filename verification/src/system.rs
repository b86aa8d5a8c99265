//! The operating system as the operations see it, and what a whole
//! operation does to it. Nothing here runs: it is the ground on which the
//! laws of the library are stated.

use crate::action::{ActionView, EventView, StepView};
use crate::config::{Platform, ProxyRequestView};
use crate::script::{NETWORK_UTILITY, WINHTTP_UTILITY};
use crate::session::{advance_model, begin_model, runnable, AwaitingView, SessionView};
use vstd::prelude::*;

verus! {

/// A value in the registry.
pub enum RegistryValue {
    Number(u32),
    Text(Seq<char>),
}

/// One proxy of one network service: whether it is on, and where it points.
pub struct ProxySetting {
    pub enabled: bool,
    pub host: Seq<char>,
    pub port: Seq<char>,
}

/// The state that the operations change.
pub struct System {
    /// The values in the current user's hive, each under the path of its key
    /// and its name.
    pub registry: Map<(Seq<char>, Seq<char>), RegistryValue>,
    /// The key that the last `OpenKey` opened.
    pub open_key: Option<Seq<char>>,
    /// The proxy of WinHTTP, where one is set.
    pub winhttp_proxy: Option<Seq<char>>,
    /// What the listing command writes: the network services, one to a line.
    pub listing: Seq<u8>,
    /// The web proxy of each network service.
    pub web: Map<Seq<char>, ProxySetting>,
    /// The secure web proxy of each network service.
    pub secure_web: Map<Seq<char>, ProxySetting>,
    /// The SOCKS proxy of each network service.
    pub socks: Map<Seq<char>, ProxySetting>,
}

/// A proxy setting that points at `host` and `port` and is on: the network
/// utility switches a proxy on when it is given its target.
pub open spec fn pointed(host: Seq<char>, port: Seq<char>) -> ProxySetting {
    ProxySetting { enabled: true, host, port }
}

/// The proxies of `service` among `proxies`, switched on or off.
pub open spec fn switched(
    proxies: Map<Seq<char>, ProxySetting>,
    service: Seq<char>,
    state: Seq<char>,
) -> Map<Seq<char>, ProxySetting> {
    proxies.insert(service, ProxySetting { enabled: state == "on"@, ..proxies[service] })
}

/// What a command of the WinHTTP utility does.
pub open spec fn winhttp_effect(system: System, args: Seq<Seq<char>>) -> System {
    if args.len() == 4 && args[0] == "winhttp"@ && args[1] == "set"@ && args[2] == "proxy"@ {
        System { winhttp_proxy: Some(args[3]), ..system }
    } else if args == seq!["winhttp"@, "reset"@, "proxy"@] {
        System { winhttp_proxy: None, ..system }
    } else {
        system
    }
}

/// What a command of the network utility does.
pub open spec fn network_effect(system: System, args: Seq<Seq<char>>) -> System {
    if args.len() == 4 && args[0] == "-setwebproxy"@ {
        System { web: system.web.insert(args[1], pointed(args[2], args[3])), ..system }
    } else if args.len() == 4 && args[0] == "-setsecurewebproxy"@ {
        System {
            secure_web: system.secure_web.insert(args[1], pointed(args[2], args[3])),
            ..system
        }
    } else if args.len() == 3 && args[0] == "-setwebproxystate"@ {
        System { web: switched(system.web, args[1], args[2]), ..system }
    } else if args.len() == 3 && args[0] == "-setsecurewebproxystate"@ {
        System { secure_web: switched(system.secure_web, args[1], args[2]), ..system }
    } else if args.len() == 3 && args[0] == "-setsocksfirewallproxystate"@ {
        System { socks: switched(system.socks, args[1], args[2]), ..system }
    } else {
        system
    }
}

/// What an action does to the system when it is carried out.
pub open spec fn effect(system: System, action: ActionView) -> System {
    match action {
        ActionView::OpenKey { path } => System { open_key: Some(path), ..system },
        ActionView::SetNumber { name, value } => match system.open_key {
            Some(key) => System {
                registry: system.registry.insert((key, name), RegistryValue::Number(value)),
                ..system
            },
            None => system,
        },
        ActionView::SetText { name, value } => match system.open_key {
            Some(key) => System {
                registry: system.registry.insert((key, name), RegistryValue::Text(value)),
                ..system
            },
            None => system,
        },
        ActionView::DeleteValue { name } => match system.open_key {
            Some(key) => System { registry: system.registry.remove((key, name)), ..system },
            None => system,
        },
        ActionView::Broadcast { area, timeout_ms } => system,
        ActionView::Run { program, args, capture } => if program == WINHTTP_UTILITY@ {
            winhttp_effect(system, args)
        } else if program == NETWORK_UTILITY@ {
            network_effect(system, args)
        } else {
            system
        },
        ActionView::Finish { result } => system,
    }
}

/// The system after an action and its event: an action that failed has
/// changed nothing.
pub open spec fn after(system: System, action: ActionView, event: EventView) -> System {
    match event {
        EventView::Done { output } => effect(system, action),
        EventView::Failed { message } => system,
    }
}

/// The system after all of `actions` were carried out, in their order.
pub open spec fn carried_out(system: System, actions: Seq<ActionView>) -> System
    decreases actions.len(),
{
    if actions.len() == 0 {
        system
    } else {
        effect(carried_out(system, actions.drop_last()), actions.last())
    }
}

/// Where an operation has got to: the system as it is, the actions that
/// were carried out or tried, and the result.
pub struct Outcome {
    pub system: System,
    pub actions: Seq<ActionView>,
    pub result: Result<(), Seq<char>>,
}

/// The stage of a session: a listing is followed by steps, steps by the end.
pub open spec fn stage(awaiting: AwaitingView) -> nat {
    match awaiting {
        AwaitingView::Listing => 2,
        AwaitingView::Step { mandatory, opens_key } => 1,
        AwaitingView::Finished { result } => 0,
    }
}

/// The steps that can be carried out are among those that are pending.
pub proof fn lemma_runnable_is_suffix(pending: Seq<StepView>, key_open: bool)
    ensures
        runnable(pending, key_open).len() <= pending.len(),
        runnable(pending, key_open) == pending.skip(
            pending.len() - runnable(pending, key_open).len(),
        ),
    decreases pending.len(),
{
    if pending.len() > 0 && pending[0].action.needs_key() && !key_open {
        lemma_runnable_is_suffix(pending.skip(1), key_open);
        let rest = runnable(pending.skip(1), key_open);
        assert(pending.skip(1).skip(pending.skip(1).len() - rest.len()) =~= pending.skip(
            pending.len() - rest.len(),
        ));
    } else {
        assert(pending.skip(0) =~= pending);
    }
}

/// The rest of an operation: `action` has been handed out by the session
/// `s`, and the caller answers the actions, from this one on, with
/// `events(at)`, `events(at + 1)` and so on.
pub open spec fn run_from(
    s: SessionView,
    action: ActionView,
    system: System,
    events: spec_fn(nat) -> EventView,
    at: nat,
) -> Outcome
    decreases stage(s.awaiting), s.pending.len(),
    via run_from_ends
{
    match s.awaiting {
        AwaitingView::Finished { result } => Outcome { system, actions: Seq::empty(), result },
        _ => {
            let event = events(at);
            let next = advance_model(s, event);
            let rest = run_from(next.0, next.1, after(system, action, event), events, at + 1);
            Outcome { actions: seq![action] + rest.actions, ..rest }
        },
    }
}

/// Every event brings a session nearer to its end: a listing is not made
/// twice, and each step leaves fewer steps pending.
#[via_fn]
proof fn run_from_ends(
    s: SessionView,
    action: ActionView,
    system: System,
    events: spec_fn(nat) -> EventView,
    at: nat,
) {
    if !(s.awaiting is Finished) {
        lemma_advance_nears_end(s, events(at));
    }
}

/// Every event brings a session that is not over nearer to its end.
pub proof fn lemma_advance_nears_end(s: SessionView, event: EventView)
    requires
        !(s.awaiting is Finished),
    ensures
        ({
            let next = advance_model(s, event).0;
            stage(next.awaiting) < stage(s.awaiting) || (stage(next.awaiting) == stage(
                s.awaiting,
            ) && next.pending.len() < s.pending.len())
        }),
{
    lemma_runnable_is_suffix(s.pending, true);
    lemma_runnable_is_suffix(s.pending, false);
}

/// A whole operation on `system`, whose actions the caller answers with
/// `events(0)`, `events(1)` and so on.
pub open spec fn run(
    platform: Platform,
    request: ProxyRequestView,
    system: System,
    events: spec_fn(nat) -> EventView,
) -> Outcome {
    let begun = begin_model(platform, request);
    run_from(begun.0, begun.1, system, events, 0)
}

/// The caller's events where the system does all that is asked of it: every
/// action is carried out, and the listing command writes the listing.
pub open spec fn obeyed(events: spec_fn(nat) -> EventView, system: System) -> bool {
    &&& forall|i: nat| (#[trigger] events(i)) is Done
    &&& events(0) == (EventView::Done { output: system.listing })
}

/// On `system`, every proxy of `service` is off.
pub open spec fn proxies_off(system: System, service: Seq<char>) -> bool {
    &&& system.web.contains_key(service) && !system.web[service].enabled
    &&& system.secure_web.contains_key(service) && !system.secure_web[service].enabled
    &&& system.socks.contains_key(service) && !system.socks[service].enabled
}

} // verus!
