//! The steps of each operation on each platform, in the order in which they
//! are carried out.

use crate::action::{Action, ActionView, Step, StepView};
use crate::config::{ProxyConfig, ProxyConfigView, ProxyRequest, ProxyRequestView};
use crate::text::{decimal, decimal_string};
use std::collections::VecDeque;
use vstd::prelude::*;

verus! {

/// The key under the current user's hive that holds the proxy settings.
pub const SETTINGS_KEY: &'static str = "Software\\Microsoft\\Windows\\CurrentVersion\\Internet Settings";

/// The 32-bit value that switches the proxy on (1) and off (0).
pub const PROXY_ENABLE: &'static str = "ProxyEnable";

/// The string value that holds the endpoint.
pub const PROXY_SERVER: &'static str = "ProxyServer";

/// How long the broadcast waits for each window, in milliseconds.
pub const BROADCAST_TIMEOUT_MS: u32 = 5000;

/// The utility that sets the proxy of WinHTTP.
pub const WINHTTP_UTILITY: &'static str = "netsh";

/// The utility that configures the network services of macOS.
pub const NETWORK_UTILITY: &'static str = "networksetup";

/// The message of every operation on a platform that is not supported.
pub const UNSUPPORTED_MESSAGE: &'static str =
    "proxy enabling/disabling is only implemented for Windows and macOS";

pub open spec fn mandatory(action: ActionView) -> StepView {
    StepView { action, mandatory: true }
}

pub open spec fn best_effort(action: ActionView) -> StepView {
    StepView { action, mandatory: false }
}

/// The broadcast that tells running programs to read the settings again.
pub open spec fn broadcast_action() -> ActionView {
    ActionView::Broadcast { area: SETTINGS_KEY@, timeout_ms: BROADCAST_TIMEOUT_MS }
}

/// Windows, `Enable`: the key and both values are mandatory, the broadcast
/// and the WinHTTP proxy are not.
pub open spec fn windows_enable_script(config: ProxyConfigView) -> Seq<StepView> {
    seq![
        mandatory(ActionView::OpenKey { path: SETTINGS_KEY@ }),
        mandatory(ActionView::SetNumber { name: PROXY_ENABLE@, value: 1 }),
        mandatory(ActionView::SetText { name: PROXY_SERVER@, value: config.endpoint() }),
        best_effort(broadcast_action()),
        best_effort(
            ActionView::Run {
                program: WINHTTP_UTILITY@,
                args: seq!["winhttp"@, "set"@, "proxy"@, config.endpoint()],
                capture: true,
            },
        ),
    ]
}

/// Windows, `Disable`: nothing is mandatory.
pub open spec fn windows_disable_script() -> Seq<StepView> {
    seq![
        best_effort(ActionView::OpenKey { path: SETTINGS_KEY@ }),
        best_effort(ActionView::SetNumber { name: PROXY_ENABLE@, value: 0 }),
        best_effort(ActionView::DeleteValue { name: PROXY_SERVER@ }),
        best_effort(broadcast_action()),
        best_effort(
            ActionView::Run {
                program: WINHTTP_UTILITY@,
                args: seq!["winhttp"@, "reset"@, "proxy"@],
                capture: true,
            },
        ),
    ]
}

pub open spec fn windows_script(request: ProxyRequestView) -> Seq<StepView> {
    match request {
        ProxyRequestView::Enable(config) => windows_enable_script(config),
        ProxyRequestView::Disable => windows_disable_script(),
    }
}

/// macOS: the command that lists the network services, one to a line.
pub open spec fn listing_action() -> ActionView {
    ActionView::Run {
        program: NETWORK_UTILITY@,
        args: seq!["-listallnetworkservices"@],
        capture: true,
    }
}

/// A command of the network utility, whose failure is passed over.
pub open spec fn network_step(args: Seq<Seq<char>>) -> StepView {
    best_effort(ActionView::Run { program: NETWORK_UTILITY@, args, capture: false })
}

/// macOS, `Enable`, for one service: the web and the secure web proxy get
/// the endpoint, then both are switched on.
pub open spec fn service_enable_script(service: Seq<char>, config: ProxyConfigView) -> Seq<
    StepView,
> {
    let port = decimal(config.port as nat);
    seq![
        network_step(seq!["-setwebproxy"@, service, config.host, port]),
        network_step(seq!["-setsecurewebproxy"@, service, config.host, port]),
        network_step(seq!["-setwebproxystate"@, service, "on"@]),
        network_step(seq!["-setsecurewebproxystate"@, service, "on"@]),
    ]
}

/// macOS, `Disable`, for one service: the web, the secure web and the SOCKS
/// proxy are switched off.
pub open spec fn service_disable_script(service: Seq<char>) -> Seq<StepView> {
    seq![
        network_step(seq!["-setwebproxystate"@, service, "off"@]),
        network_step(seq!["-setsecurewebproxystate"@, service, "off"@]),
        network_step(seq!["-setsocksfirewallproxystate"@, service, "off"@]),
    ]
}

pub open spec fn service_script(request: ProxyRequestView, service: Seq<char>) -> Seq<StepView> {
    match request {
        ProxyRequestView::Enable(config) => service_enable_script(service, config),
        ProxyRequestView::Disable => service_disable_script(service),
    }
}

/// macOS: the steps for all `services`, one service after the other.
pub open spec fn services_script(request: ProxyRequestView, services: Seq<Seq<char>>) -> Seq<
    StepView,
>
    decreases services.len(),
{
    if services.len() == 0 {
        Seq::empty()
    } else {
        services_script(request, services.drop_last()) + service_script(request, services.last())
    }
}

/// The steps of a queue, seen as values.
pub open spec fn steps_view(steps: Seq<Step>) -> Seq<StepView> {
    steps.map_values(|step: Step| step@)
}

fn run_action(program: &str, args: Vec<String>, capture: bool) -> (action: Action)
    ensures
        action@ == (ActionView::Run { program: program@, args: args.deep_view(), capture }),
{
    Action::Run { program: program.to_owned(), args, capture }
}

fn broadcast() -> (action: Action)
    ensures
        action@ == broadcast_action(),
{
    Action::Broadcast { area: SETTINGS_KEY.to_owned(), timeout_ms: BROADCAST_TIMEOUT_MS }
}

fn open_key() -> (action: Action)
    ensures
        action@ == (ActionView::OpenKey { path: SETTINGS_KEY@ }),
{
    Action::OpenKey { path: SETTINGS_KEY.to_owned() }
}

/// The steps of `Enable` on Windows.
pub fn windows_enable_steps(config: &ProxyConfig) -> (steps: VecDeque<Step>)
    ensures
        steps_view(steps@) == windows_enable_script(config@),
{
    let mut args: Vec<String> = Vec::new();
    args.push("winhttp".to_owned());
    args.push("set".to_owned());
    args.push("proxy".to_owned());
    args.push(config.endpoint());
    assert(args.deep_view() =~= seq!["winhttp"@, "set"@, "proxy"@, config@.endpoint()]);
    let mut steps: VecDeque<Step> = VecDeque::new();
    steps.push_back(Step { action: open_key(), mandatory: true });
    steps.push_back(
        Step {
            action: Action::SetNumber { name: PROXY_ENABLE.to_owned(), value: 1 },
            mandatory: true,
        },
    );
    steps.push_back(
        Step {
            action: Action::SetText { name: PROXY_SERVER.to_owned(), value: config.endpoint() },
            mandatory: true,
        },
    );
    steps.push_back(Step { action: broadcast(), mandatory: false });
    steps.push_back(Step { action: run_action(WINHTTP_UTILITY, args, true), mandatory: false });
    assert(steps_view(steps@) =~= windows_enable_script(config@));
    steps
}

/// The steps of `Disable` on Windows.
pub fn windows_disable_steps() -> (steps: VecDeque<Step>)
    ensures
        steps_view(steps@) == windows_disable_script(),
{
    let mut args: Vec<String> = Vec::new();
    args.push("winhttp".to_owned());
    args.push("reset".to_owned());
    args.push("proxy".to_owned());
    assert(args.deep_view() =~= seq!["winhttp"@, "reset"@, "proxy"@]);
    let mut steps: VecDeque<Step> = VecDeque::new();
    steps.push_back(Step { action: open_key(), mandatory: false });
    steps.push_back(
        Step {
            action: Action::SetNumber { name: PROXY_ENABLE.to_owned(), value: 0 },
            mandatory: false,
        },
    );
    steps.push_back(
        Step { action: Action::DeleteValue { name: PROXY_SERVER.to_owned() }, mandatory: false },
    );
    steps.push_back(Step { action: broadcast(), mandatory: false });
    steps.push_back(Step { action: run_action(WINHTTP_UTILITY, args, true), mandatory: false });
    assert(steps_view(steps@) =~= windows_disable_script());
    steps
}

/// The steps of `request` on Windows.
pub fn windows_steps(request: &ProxyRequest) -> (steps: VecDeque<Step>)
    ensures
        steps_view(steps@) == windows_script(request@),
{
    match request {
        ProxyRequest::Enable(config) => windows_enable_steps(config),
        ProxyRequest::Disable => windows_disable_steps(),
    }
}

/// The command that lists the network services of macOS.
pub fn listing_command() -> (action: Action)
    ensures
        action@ == listing_action(),
{
    let mut args: Vec<String> = Vec::new();
    args.push("-listallnetworkservices".to_owned());
    assert(args.deep_view() =~= seq!["-listallnetworkservices"@]);
    run_action(NETWORK_UTILITY, args, true)
}

fn network_command(args: Vec<String>) -> (step: Step)
    ensures
        step@ == network_step(args.deep_view()),
{
    Step { action: run_action(NETWORK_UTILITY, args, false), mandatory: false }
}

/// A command of the network utility that names a service and a state.
fn state_command(option: &str, service: &str, state: &str) -> (step: Step)
    ensures
        step@ == network_step(seq![option@, service@, state@]),
{
    let mut args: Vec<String> = Vec::new();
    args.push(option.to_owned());
    args.push(service.to_owned());
    args.push(state.to_owned());
    assert(args.deep_view() =~= seq![option@, service@, state@]);
    network_command(args)
}

/// A command of the network utility that gives a service its proxy.
fn target_command(option: &str, service: &str, config: &ProxyConfig) -> (step: Step)
    ensures
        step@ == network_step(
            seq![option@, service@, config@.host, decimal(config@.port as nat)],
        ),
{
    let mut args: Vec<String> = Vec::new();
    args.push(option.to_owned());
    args.push(service.to_owned());
    args.push(config.host.clone());
    args.push(decimal_string(config.port));
    assert(args.deep_view() =~= seq![
        option@,
        service@,
        config@.host,
        decimal(config@.port as nat),
    ]);
    network_command(args)
}

/// Appends the steps of `request` for one service of macOS to `steps`.
pub fn push_service_steps(steps: &mut VecDeque<Step>, request: &ProxyRequest, service: &str)
    ensures
        steps_view(final(steps)@) == steps_view(old(steps)@) + service_script(
            request@,
            service@,
        ),
{
    let ghost before = steps_view(steps@);
    match request {
        ProxyRequest::Enable(config) => {
            steps.push_back(target_command("-setwebproxy", service, config));
            steps.push_back(target_command("-setsecurewebproxy", service, config));
            steps.push_back(state_command("-setwebproxystate", service, "on"));
            steps.push_back(state_command("-setsecurewebproxystate", service, "on"));
        },
        ProxyRequest::Disable => {
            steps.push_back(state_command("-setwebproxystate", service, "off"));
            steps.push_back(state_command("-setsecurewebproxystate", service, "off"));
            steps.push_back(state_command("-setsocksfirewallproxystate", service, "off"));
        },
    }
    assert(steps_view(steps@) =~= before + service_script(request@, service@));
}

/// The steps of `request` on macOS for all `services`, in their order.
pub fn services_steps(request: &ProxyRequest, services: &Vec<String>) -> (steps: VecDeque<Step>)
    ensures
        steps_view(steps@) == services_script(request@, services.deep_view()),
{
    let mut steps: VecDeque<Step> = VecDeque::new();
    let mut i: usize = 0;
    assert(steps_view(steps@) =~= Seq::<StepView>::empty());
    assert(services.deep_view().take(0) =~= Seq::<Seq<char>>::empty());
    while i < services.len()
        invariant
            i <= services.len(),
            steps_view(steps@) == services_script(request@, services.deep_view().take(i as int)),
        decreases services.len() - i,
    {
        let ghost done = services.deep_view().take(i as int);
        let ghost more = services.deep_view().take(i + 1);
        push_service_steps(&mut steps, request, services[i].as_str());
        proof {
            assert(more.drop_last() =~= done);
            assert(more.last() == services[i as int]@);
        }
        i = i + 1;
    }
    assert(services.deep_view().take(i as int) =~= services.deep_view());
    steps
}

} // verus!
