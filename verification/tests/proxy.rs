use std::collections::BTreeMap;

use system_proxy::action::{Action, Event};
use system_proxy::config::{Platform, ProxyConfig, ProxyRequest};
use system_proxy::controller::ProxyController;
use system_proxy::script::{
    BROADCAST_TIMEOUT_MS, NETWORK_UTILITY, PROXY_ENABLE, PROXY_SERVER, SETTINGS_KEY,
    UNSUPPORTED_MESSAGE, WINHTTP_UTILITY,
};
use system_proxy::session::ProxySession;

#[derive(Clone, Debug, PartialEq, Eq)]
enum Stored {
    Number(u32),
    Text(String),
}

/// A machine in memory: a registry, a list of network services, and a
/// record of what was asked of it.
struct Host {
    registry: BTreeMap<(String, String), Stored>,
    open_key: Option<String>,
    listing: Vec<u8>,
    commands: Vec<Vec<String>>,
    broadcasts: Vec<(String, u32)>,
    /// The positions, among the actions asked for, of those that fail.
    failing: Vec<usize>,
    asked: usize,
}

impl Host {
    fn new() -> Host {
        Host {
            registry: BTreeMap::new(),
            open_key: None,
            listing: Vec::new(),
            commands: Vec::new(),
            broadcasts: Vec::new(),
            failing: Vec::new(),
            asked: 0,
        }
    }

    fn with_listing(listing: &str) -> Host {
        let mut host = Host::new();
        host.listing = listing.as_bytes().to_vec();
        host
    }

    fn value(&self, name: &str) -> Option<Stored> {
        self.registry.get(&(SETTINGS_KEY.to_string(), name.to_string())).cloned()
    }

    fn perform(&mut self, action: &Action) -> Event {
        let position = self.asked;
        self.asked += 1;
        if self.failing.contains(&position) {
            return Event::Failed { message: format!("action {} failed", position) };
        }
        let mut output = Vec::new();
        match action {
            Action::OpenKey { path } => self.open_key = Some(path.clone()),
            Action::SetNumber { name, value } => {
                let key = self.open_key.clone().expect("a value is written under an open key");
                self.registry.insert((key, name.clone()), Stored::Number(*value));
            }
            Action::SetText { name, value } => {
                let key = self.open_key.clone().expect("a value is written under an open key");
                self.registry.insert((key, name.clone()), Stored::Text(value.clone()));
            }
            Action::DeleteValue { name } => {
                let key = self.open_key.clone().expect("a value is deleted under an open key");
                self.registry.remove(&(key, name.clone()));
            }
            Action::Broadcast { area, timeout_ms } => {
                self.broadcasts.push((area.clone(), *timeout_ms));
            }
            Action::Run { program, args, capture } => {
                let mut line = vec![program.clone()];
                line.extend(args.iter().cloned());
                if args.len() == 1 && args[0] == "-listallnetworkservices" {
                    assert!(*capture);
                    output = self.listing.clone();
                }
                self.commands.push(line);
            }
            Action::Finish { .. } => panic!("the end of an operation is not carried out"),
        }
        Event::Done { output }
    }

    fn complete(&mut self, started: (ProxySession, Action)) -> Result<(), String> {
        let (mut session, mut action) = started;
        loop {
            if let Action::Finish { result } = action {
                assert!(session.is_finished());
                assert_eq!(session.result(), Some(result.clone()));
                return result;
            }
            assert!(!session.is_finished());
            assert_eq!(session.result(), None);
            let event = self.perform(&action);
            action = session.advance(event);
        }
    }

    fn enable(&mut self, platform: Platform, host: &str, port: u16) -> Result<(), String> {
        let controller = ProxyController::new(platform);
        self.complete(controller.enable(ProxyConfig::new(host.to_string(), port)))
    }

    fn disable(&mut self, platform: Platform) -> Result<(), String> {
        let controller = ProxyController::new(platform);
        self.complete(controller.disable())
    }
}

fn words(line: &[&str]) -> Vec<String> {
    line.iter().map(|word| word.to_string()).collect()
}

fn done() -> Event {
    Event::Done { output: Vec::new() }
}

fn failed(message: &str) -> Event {
    Event::Failed { message: message.to_string() }
}

#[test]
fn platform_is_read_from_its_tag() {
    assert_eq!(Platform::from_tag("windows"), Platform::Windows);
    assert_eq!(Platform::from_tag("macos"), Platform::MacOs);
    assert_eq!(Platform::from_tag("linux"), Platform::Unsupported);
    assert_eq!(Platform::from_tag("Windows"), Platform::Unsupported);
    assert_eq!(Platform::from_tag(""), Platform::Unsupported);
}

#[test]
fn constants_are_those_of_the_platforms() {
    assert_eq!(SETTINGS_KEY, "Software\\Microsoft\\Windows\\CurrentVersion\\Internet Settings");
    assert_eq!(PROXY_ENABLE, "ProxyEnable");
    assert_eq!(PROXY_SERVER, "ProxyServer");
    assert_eq!(BROADCAST_TIMEOUT_MS, 5000);
    assert_eq!(WINHTTP_UTILITY, "netsh");
    assert_eq!(NETWORK_UTILITY, "networksetup");
}

#[test]
fn windows_enable_writes_switch_and_endpoint() {
    let mut host = Host::new();
    assert_eq!(host.enable(Platform::Windows, "10.0.0.1", 8080), Ok(()));
    assert_eq!(host.value("ProxyServer"), Some(Stored::Text("10.0.0.1:8080".to_string())));
    assert_eq!(host.value("ProxyEnable"), Some(Stored::Number(1)));
}

#[test]
fn windows_enable_hands_out_its_steps_in_order() {
    let controller = ProxyController::new(Platform::Windows);
    let (mut session, first) = controller.enable(ProxyConfig::new("proxy.example".to_string(), 3128));
    assert_eq!(
        first,
        Action::OpenKey {
            path: "Software\\Microsoft\\Windows\\CurrentVersion\\Internet Settings".to_string()
        }
    );
    assert_eq!(
        session.advance(done()),
        Action::SetNumber { name: "ProxyEnable".to_string(), value: 1 }
    );
    assert_eq!(
        session.advance(done()),
        Action::SetText { name: "ProxyServer".to_string(), value: "proxy.example:3128".to_string() }
    );
    assert_eq!(
        session.advance(done()),
        Action::Broadcast {
            area: "Software\\Microsoft\\Windows\\CurrentVersion\\Internet Settings".to_string(),
            timeout_ms: 5000
        }
    );
    assert_eq!(
        session.advance(done()),
        Action::Run {
            program: "netsh".to_string(),
            args: words(&["winhttp", "set", "proxy", "proxy.example:3128"]),
            capture: true
        }
    );
    assert_eq!(session.advance(done()), Action::Finish { result: Ok(()) });
}

#[test]
fn windows_enable_broadcasts_and_sets_winhttp() {
    let mut host = Host::new();
    assert_eq!(host.enable(Platform::Windows, "10.0.0.1", 8080), Ok(()));
    assert_eq!(host.broadcasts, vec![(SETTINGS_KEY.to_string(), 5000)]);
    assert_eq!(host.commands, vec![words(&["netsh", "winhttp", "set", "proxy", "10.0.0.1:8080"])]);
}

#[test]
fn windows_enable_fails_where_the_key_cannot_be_opened() {
    let mut host = Host::new();
    host.failing = vec![0];
    assert_eq!(host.enable(Platform::Windows, "10.0.0.1", 8080), Err("action 0 failed".to_string()));
    assert_eq!(host.asked, 1);
    assert!(host.registry.is_empty());
    assert!(host.broadcasts.is_empty());
    assert!(host.commands.is_empty());
}

#[test]
fn windows_enable_fails_where_the_switch_cannot_be_written() {
    let mut host = Host::new();
    host.failing = vec![1];
    assert_eq!(host.enable(Platform::Windows, "10.0.0.1", 8080), Err("action 1 failed".to_string()));
    assert_eq!(host.asked, 2);
    assert!(host.registry.is_empty());
}

#[test]
fn windows_enable_fails_where_the_endpoint_cannot_be_written() {
    let mut host = Host::new();
    host.failing = vec![2];
    assert_eq!(host.enable(Platform::Windows, "10.0.0.1", 8080), Err("action 2 failed".to_string()));
    assert_eq!(host.asked, 3);
    assert_eq!(host.value("ProxyEnable"), Some(Stored::Number(1)));
    assert_eq!(host.value("ProxyServer"), None);
    assert!(host.broadcasts.is_empty());
    assert!(host.commands.is_empty());
}

#[test]
fn windows_enable_passes_over_broadcast_and_winhttp() {
    let mut host = Host::new();
    host.failing = vec![3, 4];
    assert_eq!(host.enable(Platform::Windows, "10.0.0.1", 8080), Ok(()));
    assert_eq!(host.asked, 5);
    assert_eq!(host.value("ProxyServer"), Some(Stored::Text("10.0.0.1:8080".to_string())));
    assert_eq!(host.value("ProxyEnable"), Some(Stored::Number(1)));
}

#[test]
fn windows_disable_clears_switch_and_endpoint() {
    let mut host = Host::new();
    assert_eq!(host.enable(Platform::Windows, "10.0.0.1", 8080), Ok(()));
    assert_eq!(host.disable(Platform::Windows), Ok(()));
    assert_eq!(host.value("ProxyEnable"), Some(Stored::Number(0)));
    assert_eq!(host.value("ProxyServer"), None);
}

#[test]
fn windows_disable_hands_out_its_steps_in_order() {
    let controller = ProxyController::new(Platform::Windows);
    let (mut session, first) = controller.disable();
    assert_eq!(first, Action::OpenKey { path: SETTINGS_KEY.to_string() });
    assert_eq!(
        session.advance(done()),
        Action::SetNumber { name: "ProxyEnable".to_string(), value: 0 }
    );
    assert_eq!(session.advance(done()), Action::DeleteValue { name: "ProxyServer".to_string() });
    assert_eq!(
        session.advance(done()),
        Action::Broadcast { area: SETTINGS_KEY.to_string(), timeout_ms: 5000 }
    );
    assert_eq!(
        session.advance(done()),
        Action::Run {
            program: "netsh".to_string(),
            args: words(&["winhttp", "reset", "proxy"]),
            capture: true
        }
    );
    assert_eq!(session.advance(done()), Action::Finish { result: Ok(()) });
}

#[test]
fn windows_disable_leaves_the_endpoint_where_it_cannot_be_deleted() {
    let mut host = Host::new();
    assert_eq!(host.enable(Platform::Windows, "10.0.0.1", 8080), Ok(()));
    host.asked = 0;
    host.failing = vec![2];
    assert_eq!(host.disable(Platform::Windows), Ok(()));
    assert_eq!(host.value("ProxyEnable"), Some(Stored::Number(0)));
    assert_eq!(host.value("ProxyServer"), Some(Stored::Text("10.0.0.1:8080".to_string())));
    assert_eq!(host.asked, 5);
}

#[test]
fn windows_disable_leaves_the_switch_where_it_cannot_be_written() {
    let mut host = Host::new();
    assert_eq!(host.enable(Platform::Windows, "10.0.0.1", 8080), Ok(()));
    host.asked = 0;
    host.failing = vec![1];
    assert_eq!(host.disable(Platform::Windows), Ok(()));
    assert_eq!(host.value("ProxyEnable"), Some(Stored::Number(1)));
    assert_eq!(host.value("ProxyServer"), None);
}

#[test]
fn windows_disable_without_the_key_goes_on_to_broadcast_and_reset() {
    let controller = ProxyController::new(Platform::Windows);
    let (mut session, first) = controller.disable();
    assert_eq!(first, Action::OpenKey { path: SETTINGS_KEY.to_string() });
    assert_eq!(
        session.advance(failed("access denied")),
        Action::Broadcast { area: SETTINGS_KEY.to_string(), timeout_ms: 5000 }
    );
    assert_eq!(
        session.advance(failed("no window answered")),
        Action::Run {
            program: "netsh".to_string(),
            args: words(&["winhttp", "reset", "proxy"]),
            capture: true
        }
    );
    assert_eq!(session.advance(failed("netsh is missing")), Action::Finish { result: Ok(()) });
}

#[test]
fn windows_disable_succeeds_whatever_fails() {
    let mut host = Host::new();
    host.failing = vec![0, 1, 2, 3, 4];
    assert_eq!(host.disable(Platform::Windows), Ok(()));
    assert_eq!(host.asked, 3);
    assert!(host.registry.is_empty());
}

#[test]
fn disable_twice_succeeds_on_windows() {
    let mut host = Host::new();
    assert_eq!(host.disable(Platform::Windows), Ok(()));
    assert_eq!(host.disable(Platform::Windows), Ok(()));
    assert_eq!(host.value("ProxyEnable"), Some(Stored::Number(0)));
    assert_eq!(host.value("ProxyServer"), None);
}

#[test]
fn macos_enable_configures_each_enabled_service() {
    let mut host = Host::with_listing("Wi-Fi\n* Bluetooth PAN\nEthernet\n");
    assert_eq!(host.enable(Platform::MacOs, "10.0.0.1", 8080), Ok(()));
    assert_eq!(
        host.commands,
        vec![
            words(&["networksetup", "-listallnetworkservices"]),
            words(&["networksetup", "-setwebproxy", "Wi-Fi", "10.0.0.1", "8080"]),
            words(&["networksetup", "-setsecurewebproxy", "Wi-Fi", "10.0.0.1", "8080"]),
            words(&["networksetup", "-setwebproxystate", "Wi-Fi", "on"]),
            words(&["networksetup", "-setsecurewebproxystate", "Wi-Fi", "on"]),
            words(&["networksetup", "-setwebproxy", "Ethernet", "10.0.0.1", "8080"]),
            words(&["networksetup", "-setsecurewebproxy", "Ethernet", "10.0.0.1", "8080"]),
            words(&["networksetup", "-setwebproxystate", "Ethernet", "on"]),
            words(&["networksetup", "-setsecurewebproxystate", "Ethernet", "on"]),
        ]
    );
}

#[test]
fn macos_enable_issues_four_commands_for_a_service_and_none_for_a_starred_one() {
    let mut host = Host::with_listing("Wi-Fi\n* Bluetooth PAN\nEthernet");
    assert_eq!(host.enable(Platform::MacOs, "10.0.0.1", 8080), Ok(()));
    let naming = |service: &str| {
        host.commands.iter().filter(|line| line.len() > 2 && line[2] == service).count()
    };
    assert_eq!(naming("Wi-Fi"), 4);
    assert_eq!(naming("Ethernet"), 4);
    assert_eq!(naming("* Bluetooth PAN"), 0);
    assert_eq!(naming("Bluetooth PAN"), 0);
    assert_eq!(host.commands.len(), 9);
}

#[test]
fn macos_disable_switches_three_proxies_off_for_each_service() {
    let mut host = Host::with_listing("Wi-Fi\n* Bluetooth PAN\nEthernet\n");
    assert_eq!(host.disable(Platform::MacOs), Ok(()));
    assert_eq!(
        host.commands,
        vec![
            words(&["networksetup", "-listallnetworkservices"]),
            words(&["networksetup", "-setwebproxystate", "Wi-Fi", "off"]),
            words(&["networksetup", "-setsecurewebproxystate", "Wi-Fi", "off"]),
            words(&["networksetup", "-setsocksfirewallproxystate", "Wi-Fi", "off"]),
            words(&["networksetup", "-setwebproxystate", "Ethernet", "off"]),
            words(&["networksetup", "-setsecurewebproxystate", "Ethernet", "off"]),
            words(&["networksetup", "-setsocksfirewallproxystate", "Ethernet", "off"]),
        ]
    );
}

#[test]
fn macos_commands_for_services_are_not_captured() {
    let controller = ProxyController::new(Platform::MacOs);
    let (mut session, first) = controller.disable();
    assert_eq!(
        first,
        Action::Run {
            program: "networksetup".to_string(),
            args: words(&["-listallnetworkservices"]),
            capture: true
        }
    );
    let next = session.advance(Event::Done { output: b"Wi-Fi\n".to_vec() });
    assert_eq!(
        next,
        Action::Run {
            program: "networksetup".to_string(),
            args: words(&["-setwebproxystate", "Wi-Fi", "off"]),
            capture: false
        }
    );
}

#[test]
fn macos_fails_where_the_services_cannot_be_listed() {
    let mut host = Host::with_listing("Wi-Fi\n");
    host.failing = vec![0];
    assert_eq!(host.enable(Platform::MacOs, "10.0.0.1", 8080), Err("action 0 failed".to_string()));
    assert_eq!(host.asked, 1);
    assert!(host.commands.is_empty());
    host.asked = 0;
    assert_eq!(host.disable(Platform::MacOs), Err("action 0 failed".to_string()));
    assert_eq!(host.asked, 1);
}

#[test]
fn macos_passes_over_every_failing_command() {
    let mut host = Host::with_listing("Wi-Fi\nEthernet\n");
    host.failing = vec![1, 2, 3, 4, 5, 6, 7, 8];
    assert_eq!(host.enable(Platform::MacOs, "10.0.0.1", 8080), Ok(()));
    assert_eq!(host.asked, 9);
}

#[test]
fn macos_goes_on_after_one_failing_command() {
    let mut host = Host::with_listing("Wi-Fi\nEthernet\n");
    host.failing = vec![2];
    assert_eq!(host.disable(Platform::MacOs), Ok(()));
    assert_eq!(
        host.commands,
        vec![
            words(&["networksetup", "-listallnetworkservices"]),
            words(&["networksetup", "-setwebproxystate", "Wi-Fi", "off"]),
            words(&["networksetup", "-setsocksfirewallproxystate", "Wi-Fi", "off"]),
            words(&["networksetup", "-setwebproxystate", "Ethernet", "off"]),
            words(&["networksetup", "-setsecurewebproxystate", "Ethernet", "off"]),
            words(&["networksetup", "-setsocksfirewallproxystate", "Ethernet", "off"]),
        ]
    );
}

#[test]
fn macos_without_services_only_lists() {
    let mut host = Host::with_listing("\n* Bluetooth PAN\n");
    assert_eq!(host.enable(Platform::MacOs, "10.0.0.1", 8080), Ok(()));
    assert_eq!(host.commands, vec![words(&["networksetup", "-listallnetworkservices"])]);
    let mut empty = Host::new();
    assert_eq!(empty.disable(Platform::MacOs), Ok(()));
    assert_eq!(empty.commands.len(), 1);
}

#[test]
fn macos_names_services_as_the_listing_spells_them() {
    let mut host = Host::with_listing("USB 10/100/1000 LAN\r\nThunderbolt (*) Bridge\n");
    assert_eq!(host.disable(Platform::MacOs), Ok(()));
    assert_eq!(host.commands.len(), 7);
    assert_eq!(host.commands[1], words(&["networksetup", "-setwebproxystate", "USB 10/100/1000 LAN", "off"]));
    assert_eq!(
        host.commands[4],
        words(&["networksetup", "-setwebproxystate", "Thunderbolt (*) Bridge", "off"])
    );
}

#[test]
fn disable_twice_succeeds_on_macos() {
    let mut host = Host::with_listing("Wi-Fi\n");
    assert_eq!(host.disable(Platform::MacOs), Ok(()));
    assert_eq!(host.disable(Platform::MacOs), Ok(()));
    assert_eq!(host.commands.len(), 8);
}

#[test]
fn enable_then_disable_ends_with_the_proxies_off() {
    let mut host = Host::with_listing("Wi-Fi\n* Bluetooth PAN\nEthernet\n");
    assert_eq!(host.enable(Platform::MacOs, "10.0.0.1", 8080), Ok(()));
    assert_eq!(host.disable(Platform::MacOs), Ok(()));
    for service in ["Wi-Fi", "Ethernet"] {
        for option in ["-setwebproxystate", "-setsecurewebproxystate"] {
            let last = host
                .commands
                .iter()
                .rev()
                .find(|line| line.len() == 4 && line[1] == option && line[2] == service)
                .expect("the state of the proxy was set");
            assert_eq!(last[3], "off");
            let target = if option == "-setwebproxystate" { "-setwebproxy" } else { "-setsecurewebproxy" };
            let set = host
                .commands
                .iter()
                .rposition(|line| line.len() == 5 && line[1] == target && line[2] == service)
                .expect("the proxy was given its target");
            let off = host
                .commands
                .iter()
                .rposition(|line| line.len() == 4 && line[1] == option && line[2] == service)
                .expect("the state of the proxy was set");
            assert!(set < off);
        }
    }
}

#[test]
fn unsupported_platform_fails_without_any_action() {
    let controller = ProxyController::new(Platform::Unsupported);
    let (session, first) = controller.enable(ProxyConfig::new("10.0.0.1".to_string(), 8080));
    assert_eq!(
        first,
        Action::Finish {
            result: Err("proxy enabling/disabling is only implemented for Windows and macOS".to_string())
        }
    );
    assert!(session.is_finished());
    let (session, first) = controller.disable();
    assert_eq!(first, Action::Finish { result: Err(UNSUPPORTED_MESSAGE.to_string()) });
    assert!(session.is_finished());
}

#[test]
fn unsupported_platform_leaves_the_host_alone() {
    let mut host = Host::with_listing("Wi-Fi\n");
    assert_eq!(
        host.enable(Platform::Unsupported, "10.0.0.1", 8080),
        Err(UNSUPPORTED_MESSAGE.to_string())
    );
    assert_eq!(host.disable(Platform::Unsupported), Err(UNSUPPORTED_MESSAGE.to_string()));
    assert_eq!(host.asked, 0);
    assert!(host.commands.is_empty());
    assert!(host.registry.is_empty());
}

#[test]
fn finished_session_stays_finished() {
    let (mut session, first) = ProxySession::begin(Platform::Unsupported, ProxyRequest::Disable);
    assert_eq!(first, Action::Finish { result: Err(UNSUPPORTED_MESSAGE.to_string()) });
    assert_eq!(session.advance(done()), Action::Finish { result: Err(UNSUPPORTED_MESSAGE.to_string()) });
    assert_eq!(
        session.advance(failed("late")),
        Action::Finish { result: Err(UNSUPPORTED_MESSAGE.to_string()) }
    );
    assert_eq!(session.result(), Some(Err(UNSUPPORTED_MESSAGE.to_string())));
}

#[test]
fn failed_session_keeps_its_message() {
    let controller = ProxyController::new(Platform::MacOs);
    let (mut session, _) = controller.disable();
    assert_eq!(
        session.advance(failed("networksetup: not found")),
        Action::Finish { result: Err("networksetup: not found".to_string()) }
    );
    assert_eq!(session.result(), Some(Err("networksetup: not found".to_string())));
    assert_eq!(
        session.advance(done()),
        Action::Finish { result: Err("networksetup: not found".to_string()) }
    );
}

#[test]
fn unchecked_endpoint_is_written_as_given() {
    let mut host = Host::new();
    assert_eq!(host.enable(Platform::Windows, "", 0), Ok(()));
    assert_eq!(host.value("ProxyServer"), Some(Stored::Text(":0".to_string())));
}

#[test]
fn action_kinds_are_told_apart() {
    let open = Action::OpenKey { path: SETTINGS_KEY.to_string() };
    let delete = Action::DeleteValue { name: PROXY_SERVER.to_string() };
    let finish = Action::Finish { result: Ok(()) };
    assert!(open.opens_key() && !open.needs_key() && !open.is_finish());
    assert!(delete.needs_key() && !delete.opens_key() && !delete.is_finish());
    assert!(finish.is_finish() && !finish.needs_key() && !finish.opens_key());
    assert!(Action::SetNumber { name: PROXY_ENABLE.to_string(), value: 1 }.needs_key());
    assert!(Action::SetText { name: PROXY_SERVER.to_string(), value: String::new() }.needs_key());
}

#[test]
fn failures_that_are_passed_over_are_kept_in_order() {
    let controller = ProxyController::new(Platform::Windows);
    let (mut session, _) = controller.disable();
    assert_eq!(session.passed_over(), Vec::<String>::new());
    session.advance(done());
    session.advance(failed("the switch is read-only"));
    assert_eq!(session.passed_over(), vec!["the switch is read-only"]);
    session.advance(done());
    session.advance(failed("no window answered"));
    let last = session.advance(failed("netsh is missing"));
    assert_eq!(last, Action::Finish { result: Ok(()) });
    assert_eq!(
        session.passed_over(),
        vec!["the switch is read-only", "no window answered", "netsh is missing"]
    );
}

#[test]
fn failure_that_ends_the_operation_is_its_result_alone() {
    let controller = ProxyController::new(Platform::Windows);
    let (mut session, _) = controller.enable(ProxyConfig::new("10.0.0.1".to_string(), 8080));
    session.advance(done());
    let last = session.advance(failed("access denied"));
    assert_eq!(last, Action::Finish { result: Err("access denied".to_string()) });
    assert_eq!(session.passed_over(), Vec::<String>::new());
    let listing = ProxyController::new(Platform::MacOs);
    let (mut session, _) = listing.enable(ProxyConfig::new("10.0.0.1".to_string(), 8080));
    session.advance(failed("not found"));
    assert_eq!(session.passed_over(), Vec::<String>::new());
}

#[test]
fn events_after_the_end_are_not_kept() {
    let controller = ProxyController::new(Platform::MacOs);
    let (mut session, _) = controller.disable();
    assert_eq!(session.advance(done()), Action::Finish { result: Ok(()) });
    session.advance(failed("late"));
    assert_eq!(session.passed_over(), Vec::<String>::new());
}
