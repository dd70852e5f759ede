use steel_proxy::backends::BackendMap;
use steel_proxy::codec::{
    push_text, push_varint, read_text, read_varint, TextError, VarIntError,
};
use steel_proxy::config::{
    BackendServer, JenkinsConfig, KubernetesConfig, ProxyConfig, ResourceLimits,
};
use steel_proxy::db::models::PrBuild;
use steel_proxy::jenkins::JenkinsClient;
use steel_proxy::k8s::instance::{InstanceState, Moment};
use steel_proxy::k8s::recovery::Recovery;
use steel_proxy::k8s::K8sManager;
use steel_proxy::packets::{
    build_commands, compression_of, ArgumentType, CTransfer, ClientIntent, CompressionInfo,
    ConnectionProtocol, NodeKind, PacketIds, RawPacket,
};
use steel_proxy::proxy::backend_connector::{BackendConnector, LoginError, LoginStep};
use steel_proxy::proxy::client_handler::{ClientHandler, HandlerStep, StatusReport};
use steel_proxy::proxy::packet_forwarder::{
    start_answer, ForwardStep, ForwarderEvent, PacketForwarder, ProxyCommand, DRAIN_SECS,
};
use steel_proxy::proxy::registry::BackendRegistry;
use steel_proxy::proxy::{ProxyServer, RouteError, StartError};

const IDS: PacketIds = PacketIds {
    intention: 0,
    login_intent: 2,
    status_request: 0,
    ping_request: 1,
    hello: 0,
    login_acknowledged: 3,
    login_compression: 3,
    login_finished: 2,
    finish_configuration: 3,
    config_transfer: 11,
    chat_command: 6,
    chat_command_signed: 7,
    play_login: 48,
    entity_event: 34,
    commands: 16,
    play_transfer: 129,
};

const STEVE: u128 = 0x0102_0304_0506_0708_090a_0b0c_0d0e_0f10;

fn backend(port: u16, description: Option<&str>) -> BackendServer {
    BackendServer {
        address: "127.0.0.1".to_string(),
        port,
        description: description.map(str::to_string),
    }
}

fn settings() -> ProxyConfig {
    let mut config = ProxyConfig::create_default();
    config.public_address = "play.example.com".to_string();
    config.bind_port = 25570;
    config
}

fn kubernetes() -> K8sManager {
    K8sManager::new(KubernetesConfig {
        namespace: "pr".to_string(),
        registry: "r".to_string(),
        instance_timeout_minutes: 30,
        image_name: "i".to_string(),
        resources: ResourceLimits::default(),
        node_address: "10.0.0.1".to_string(),
    })
}

fn jenkins() -> JenkinsClient {
    JenkinsClient::new(JenkinsConfig {
        url: "https://j".to_string(),
        job_name: "job".to_string(),
        username: "u".to_string(),
        api_token: "t".to_string(),
        build_timeout_minutes: 15,
    })
}

fn plain() -> ProxyServer {
    ProxyServer::new(settings(), None, None)
}

fn full() -> ProxyServer {
    ProxyServer::new(settings(), Some(kubernetes()), Some(jenkins()))
}

fn now() -> Moment {
    Moment { nanos: 0 }
}

#[test]
fn dynamic_backends_go_before_static_ones() {
    let mut fixed = BackendMap::new();
    fixed.insert("a".to_string(), backend(1, None));
    let mut r = BackendRegistry::new(fixed);
    assert_eq!(r.get("a").unwrap().port, 1);
    r.add_dynamic("a".to_string(), backend(2, None));
    r.add_dynamic("b".to_string(), backend(3, None));
    assert_eq!(r.get("a").unwrap().port, 2);
    assert!(r.contains("b"));
    assert!(!r.contains("c") && r.get("c").is_none());
    let row: Vec<(String, u16)> = r.iter().iter().map(|e| (e.0.clone(), e.1.port)).collect();
    assert_eq!(
        row,
        vec![("a".to_string(), 1), ("a".to_string(), 2), ("b".to_string(), 3)]
    );
    assert_eq!(r.remove_dynamic("a").unwrap().port, 2);
    assert_eq!(r.get("a").unwrap().port, 1);
    assert!(r.remove_dynamic("a").is_none());
}

#[test]
fn clients_are_numbered_from_one() {
    let mut p = plain();
    assert_eq!(p.client_count(), 0);
    assert_eq!(p.handle_client(), 1);
    assert_eq!(p.handle_client(), 2);
    assert_eq!(p.client_count(), 2);
}

#[test]
fn a_wish_is_met_once() {
    let mut p = plain();
    p.set_target_server(1, "lobby".to_string());
    p.set_target_server(1, "survival".to_string());
    p.set_target_server(2, "nowhere".to_string());
    assert_eq!(
        p.route(1),
        Ok(("survival".to_string(), "127.0.0.1".to_string(), 25567))
    );
    assert_eq!(p.route(1), Ok(("lobby".to_string(), "127.0.0.1".to_string(), 25566)));
    assert_eq!(p.route(2), Err(RouteError::BackendNotFound));
    assert_eq!(RouteError::BackendNotFound.message(), "Backend server not found");
    assert_eq!(p.route(2).unwrap().0, "lobby");
    assert_eq!(p.get_target_server(3), None);
}

#[test]
fn what_is_in_the_way_of_a_build() {
    assert_eq!(plain().start_pr(1), Err(StartError::NoJenkins));
    let no_cluster = ProxyServer::new(settings(), None, Some(jenkins()));
    assert_eq!(no_cluster.start_pr(1), Err(StartError::NoKubernetes));
    let mut p = full();
    assert_eq!(p.start_pr(42).unwrap(), "§e[Proxy] Starting build for PR #42...");
    assert_eq!(
        p.build_queued(42, "f".to_string(), "s".to_string(), "q".to_string(), now()).unwrap(),
        "§a[Proxy] PR #42 build queued. You will be notified when it's ready."
    );
    assert!(matches!(
        p.k8s_manager().unwrap().get_instance_state(42),
        Some(InstanceState::Building { started_at, build_url: Some(url) })
            if started_at == now() && url == "q"
    ));
    assert_eq!(p.start_pr(42), Err(StartError::HasInstance { pr_number: 42 }));
    {
        let (_, backends) = p.instances_and_backends().unwrap();
        backends.add_dynamic("pr-7".to_string(), backend(1, None));
    }
    assert_eq!(p.start_pr(7), Err(StartError::HasBackend { pr_number: 7 }));
    assert!(p.start_pr(8).is_ok());
}

#[test]
fn reasons_for_no_build_in_words() {
    assert_eq!(StartError::NoJenkins.message(), "Jenkins not configured");
    assert_eq!(StartError::NoKubernetes.message(), "Kubernetes not configured");
    assert_eq!(
        StartError::HasInstance { pr_number: 42 }.message(),
        "PR #42 is already being built or running"
    );
    assert_eq!(
        StartError::HasBackend { pr_number: 42 }.message(),
        "PR #42 instance already exists"
    );
    let mut p = plain();
    assert_eq!(
        p.build_queued(1, String::new(), String::new(), String::new(), now()),
        Err(StartError::NoKubernetes)
    );
    assert!(p.instances_and_backends().is_none());
    assert!(p.jenkins_client().is_none());
    assert!(full().jenkins_client().is_some());
}

#[test]
fn the_commands_of_the_proxy() {
    let c = build_commands();
    assert_eq!(c.root_index, 0);
    assert_eq!(c.nodes.len(), 7);
    let children: Vec<Vec<i32>> = c.nodes.iter().map(|n| n.children.clone()).collect();
    assert_eq!(
        children,
        vec![vec![1, 3, 5], vec![2], vec![], vec![4], vec![], vec![6], vec![]]
    );
    let ends: Vec<bool> = c.nodes.iter().map(|n| n.executable).collect();
    assert_eq!(ends, vec![false, true, true, false, true, false, true]);
    let names: Vec<&str> = c
        .nodes
        .iter()
        .map(|n| match &n.kind {
            NodeKind::Root => "",
            NodeKind::Literal { name } => *name,
            NodeKind::Argument { name, .. } => *name,
        })
        .collect();
    assert_eq!(
        names,
        vec!["", "server", "server_name", "start", "pr_number", "status", "pr_number"]
    );
    assert!(matches!(
        c.nodes[4].kind,
        NodeKind::Argument { parser: ArgumentType::Integer { min: None, max: None }, .. }
    ));
    assert!(matches!(
        c.nodes[2].kind,
        NodeKind::Argument { parser: ArgumentType::String { .. }, .. }
    ));
}

#[test]
fn a_transfer_on_the_wire() {
    let t = CTransfer::new("ab".to_string(), 25565);
    let mut out = vec![9];
    t.write(&mut out);
    assert_eq!(out, vec![9, 2, b'a', b'b', 0xdd, 0xc7, 0x01]);
    assert_eq!(read_text(&out[1..]).unwrap(), "ab");
    assert_eq!(read_varint(&out[4..]), Ok((25565, 3)));
    assert_eq!(t.get_id(ConnectionProtocol::Config, &IDS), Some(11));
    assert_eq!(t.get_id(ConnectionProtocol::Play, &IDS), Some(129));
    assert_eq!(t.get_id(ConnectionProtocol::Handshake, &IDS), None);
    assert_eq!(t.get_id(ConnectionProtocol::Status, &IDS), None);
    assert_eq!(t.get_id(ConnectionProtocol::Login, &IDS), None);
}

#[test]
fn the_first_packets_to_a_backend() {
    let c = BackendConnector::new("ab".to_string(), 25566, "Steve".to_string(), STEVE);
    assert_eq!(c.socket(), "ab:25566");
    let (handshake, login_start, login) = c.connect(&IDS);
    assert_eq!(handshake, vec![0, 0x86, 0x06, 2, b'a', b'b', 0x63, 0xde, 2]);
    let mut expected = vec![0, 5];
    expected.extend_from_slice(b"Steve");
    expected.extend_from_slice(&STEVE.to_be_bytes());
    assert_eq!(login_start, expected);
    assert_eq!(login.threshold, None);
    assert_eq!(c.uuid(), STEVE);
}

fn packet(id: i32, payload: &[u8]) -> RawPacket {
    RawPacket { id, payload: payload.to_vec() }
}

#[test]
fn answers_of_a_backend_to_a_login() {
    let c = BackendConnector::new("ab".to_string(), 1, "Steve".to_string(), STEVE);
    let mut login = c.connect(&IDS).2;
    assert!(matches!(login.on_packet(&packet(3, &[0]), &IDS), Ok(LoginStep::Wait)));
    let mut minus_one = Vec::new();
    push_varint(&mut minus_one, -1);
    assert!(matches!(login.on_packet(&packet(3, &minus_one), &IDS), Ok(LoginStep::Wait)));
    assert_eq!(login.threshold, None);
    match login.on_packet(&packet(2, &[]), &IDS) {
        Ok(LoginStep::Acknowledge { packet, compression }) => {
            assert_eq!(packet, vec![3]);
            assert_eq!(compression, None);
        }
        other => panic!("{:?}", other),
    }
    assert!(matches!(
        login.on_packet(&packet(3, &[0x80, 0x02]), &IDS),
        Ok(LoginStep::Compress { threshold: 256 })
    ));
    assert_eq!(login.threshold, Some(256));
    match login.on_packet(&packet(2, &[]), &IDS) {
        Ok(LoginStep::Acknowledge { packet, compression }) => {
            assert_eq!(packet, vec![3]);
            assert_eq!(compression, Some(CompressionInfo { threshold: 256, level: 4 }));
        }
        other => panic!("{:?}", other),
    }
    let e = login.on_packet(&packet(-7, &[]), &IDS).unwrap_err();
    assert_eq!(e, LoginError::Unexpected { id: -7 });
    assert_eq!(e.message(), "Unexpected packet from backend during login: ID=-7");
    let e = login.on_packet(&packet(3, &[]), &IDS).unwrap_err();
    assert_eq!(e, LoginError::Threshold(VarIntError::Ends));
    assert_eq!(e.message(), "Unreadable compression threshold");
    assert_eq!(login.threshold, Some(256));
    assert_eq!(compression_of(None), None);
}

#[test]
fn the_last_positive_size_counts() {
    let c = BackendConnector::new("ab".to_string(), 1, "Steve".to_string(), STEVE);
    let mut login = c.connect(&IDS).2;
    for size in [256, 0, 64, -1] {
        let mut payload = Vec::new();
        push_varint(&mut payload, size);
        login.on_packet(&packet(3, &payload), &IDS).unwrap();
    }
    match login.on_packet(&packet(2, &[]), &IDS) {
        Ok(LoginStep::Acknowledge { compression, .. }) => {
            assert_eq!(compression, Some(CompressionInfo { threshold: 64, level: 4 }));
        }
        other => panic!("{:?}", other),
    }
}

#[test]
fn a_client_that_asks_for_the_status() {
    let mut p = plain();
    let mut h = ClientHandler::new(5);
    assert_eq!(h.client_id(), 5);
    assert!(matches!(h.run(9, &IDS, &mut p), Ok(HandlerStep::Ignore)));
    assert!(matches!(h.run(0, &IDS, &mut p), Ok(HandlerStep::ReadIntention)));
    h.on_intention(ClientIntent::Status);
    match h.run(0, &IDS, &mut p) {
        Ok(HandlerStep::SendStatus { report }) => {
            assert_eq!(
                report,
                StatusReport {
                    description: "Steel Proxy Server (Offline Mode)",
                    max_players: 100,
                    online_players: 0,
                    version_name: "1.21.11",
                    version_protocol: 774,
                    enforce_secure_chat: false,
                }
            );
        }
        other => panic!("{:?}", other),
    }
    assert!(matches!(h.run(9, &IDS, &mut p), Ok(HandlerStep::Ignore)));
    assert!(matches!(h.run(1, &IDS, &mut p), Ok(HandlerStep::EchoPing)));
    assert_eq!(ClientHandler::on_ping(-7), -7);
    for id in [0, 1, 3, 9] {
        assert!(!h.is_nameless(id, &IDS));
        assert!(matches!(h.run(id, &IDS, &mut p), Ok(HandlerStep::Close)));
    }
}

fn log_in(p: &mut ProxyServer, intent: ClientIntent) -> Result<HandlerStep, RouteError> {
    let mut h = ClientHandler::new(1);
    h.run(0, &IDS, p).unwrap();
    h.on_intention(intent);
    assert!(h.is_nameless(3, &IDS));
    assert!(matches!(h.run(0, &IDS, p), Ok(HandlerStep::ReadHello)));
    assert_eq!(h.on_hello("Steve".to_string(), STEVE), (STEVE, "Steve".to_string()));
    assert!(!h.is_nameless(3, &IDS));
    assert!(matches!(h.run(9, &IDS, p), Ok(HandlerStep::Ignore)));
    let step = h.run(3, &IDS, p);
    assert!(matches!(h.run(0, &IDS, p), Ok(HandlerStep::Close)));
    step
}

#[test]
fn a_client_that_logs_in() {
    let mut p = plain();
    match log_in(&mut p, ClientIntent::Login) {
        Ok(HandlerStep::Connect { backend_name, connector }) => {
            assert_eq!(backend_name, "lobby");
            assert_eq!(connector.socket(), "127.0.0.1:25566");
            assert!(connector.connect(&IDS).1.ends_with(&STEVE.to_be_bytes()));
        }
        other => panic!("{:?}", other),
    }
    p.set_target_server(STEVE, "gone".to_string());
    assert!(matches!(
        log_in(&mut p, ClientIntent::Transfer),
        Err(RouteError::BackendNotFound)
    ));
}

fn command(text: &str, rest: &[u8]) -> Vec<u8> {
    let mut payload = Vec::new();
    push_text(&mut payload, text);
    payload.extend_from_slice(rest);
    payload
}

fn playing(threshold: Option<u32>) -> PacketForwarder {
    let mut f = PacketForwarder::new(1, STEVE, "lobby".to_string(), threshold);
    let mut p = plain();
    let step = f.handle_client_packet(&packet(3, &[]), &IDS, &mut p);
    assert!(matches!(step, ForwardStep::ToBackend { .. }));
    f
}

fn say(step: ForwardStep) -> String {
    match step {
        ForwardStep::Say { text, must_arrive: true } => text,
        other => panic!("{:?}", other),
    }
}

fn ask(f: &mut PacketForwarder, p: &mut ProxyServer, text: &str) -> ForwardStep {
    f.handle_client_packet(&packet(6, &command(text, &[])), &IDS, p)
}

#[test]
fn commands_are_told_apart() {
    assert!(matches!(ProxyCommand::of("server"), Some(ProxyCommand::List)));
    for text in ["server a", "server  a ", "server \ta"] {
        assert!(matches!(ProxyCommand::of(text), Some(ProxyCommand::Switch { server })
            if server == "a"));
    }
    assert!(matches!(ProxyCommand::of("server "), Some(ProxyCommand::Switch { server })
        if server.is_empty()));
    assert!(matches!(ProxyCommand::of("start  42"), Some(ProxyCommand::Start { pr_arg })
        if pr_arg == "42"));
    assert!(matches!(ProxyCommand::of("status 42"), Some(ProxyCommand::Status { pr_arg })
        if pr_arg == "42"));
    for text in ["", "servers", "start", "status", "Server", " server", "stop 42"] {
        assert!(ProxyCommand::of(text).is_none(), "{:?}", text);
    }
}

#[test]
fn other_packets_are_forwarded_unchanged() {
    let mut p = plain();
    let mut f = playing(Some(256));
    for (id, payload) in [
        (5, vec![1, 2, 3]),
        (300, vec![]),
        (-1, vec![0xff]),
        (6, command("gamemode creative", &[])),
        (6, vec![9, b'x']),
        (6, vec![2, 0xc3, 0x28]),
    ] {
        match f.handle_client_packet(&packet(id, &payload), &IDS, &mut p) {
            ForwardStep::ToBackend { bytes, compression } => {
                let (read, used) = read_varint(&bytes).unwrap();
                assert_eq!(read, id);
                assert_eq!(&bytes[used..], &payload[..]);
                assert_eq!(compression, Some(CompressionInfo { threshold: 256, level: 4 }));
            }
            other => panic!("{:?}", other),
        }
        match f.handle_backend_packet(&packet(id, &payload), &IDS) {
            ForwardStep::ToClient { bytes, must_arrive: true } => {
                let (read, used) = read_varint(&bytes).unwrap();
                assert_eq!((read, &bytes[used..]), (id, &payload[..]));
            }
            other => panic!("{:?}", other),
        }
    }
}

#[test]
fn commands_are_only_read_during_play() {
    let mut p = plain();
    let mut f = PacketForwarder::new(1, STEVE, "lobby".to_string(), None);
    assert!(matches!(
        ask(&mut f, &mut p, "server survival"),
        ForwardStep::ToBackend { compression: None, .. }
    ));
    assert_eq!(p.get_target_server(STEVE), None);
}

#[test]
fn commands_of_negative_length_are_forwarded_unchanged() {
    let payload = [0xff, 0xff, 0xff, 0xff, 0x0f];
    let mut p = plain();
    for id in [6, 7] {
        match playing(None).handle_client_packet(&packet(id, &payload), &IDS, &mut p) {
            ForwardStep::ToBackend { bytes, compression: None } => {
                assert_eq!(bytes[0], id as u8);
                assert_eq!(&bytes[1..], &payload[..]);
            }
            other => panic!("{:?}", other),
        }
    }
    assert_eq!(PacketForwarder::parse_command_from_payload(&payload), Err(TextError::Short));
    assert!(PacketForwarder::parse_command_from_payload(&[]).is_err());
    assert_eq!(PacketForwarder::parse_command_from_payload(&[1, b'x', 0xff]).unwrap(), "x");
}

#[test]
fn the_list_of_servers() {
    let mut p = full();
    {
        let (_, backends) = p.instances_and_backends().unwrap();
        backends.add_dynamic("pr-1".to_string(), backend(1, Some("")));
        backends.add_dynamic("pr-2".to_string(), backend(1, None));
    }
    let mut f = playing(None);
    assert_eq!(
        say(ask(&mut f, &mut p, "server")),
        "Available servers:\n  - lobby: Lobby server (current)\n  - survival: Survival server\n  - pr-1\n  - pr-2"
    );
    let f = PacketForwarder::new(1, STEVE, "pr-2".to_string(), None);
    assert!(say(f.list_servers(p.backends())).ends_with("\n  - pr-1\n  - pr-2 (current)"));
}

#[test]
fn going_to_another_server() {
    let mut p = plain();
    let mut f = playing(None);
    assert_eq!(say(ask(&mut f, &mut p, "server nowhere")), "Unknown server: nowhere");
    assert!(!f.is_draining());
    assert_eq!(p.get_target_server(STEVE), None);

    let signed = packet(7, &command("server survival ", &[1, 2, 3, 4]));
    match f.handle_client_packet(&signed, &IDS, &mut p) {
        ForwardStep::Transfer { packet } => {
            assert_eq!((packet.host.as_str(), packet.port), ("play.example.com", 25570));
        }
        other => panic!("{:?}", other),
    }
    assert!(f.is_draining());
    p.set_target_server(7, "lobby".to_string());
    p.route(7).unwrap();
    match log_in(&mut p, ClientIntent::Transfer) {
        Ok(HandlerStep::Connect { backend_name, connector }) => {
            assert_eq!(backend_name, "survival");
            assert_eq!(connector.socket(), "127.0.0.1:25567");
        }
        other => panic!("{:?}", other),
    }
    match log_in(&mut p, ClientIntent::Login) {
        Ok(HandlerStep::Connect { backend_name, .. }) => assert_eq!(backend_name, "lobby"),
        other => panic!("{:?}", other),
    }
}

#[test]
fn starting_a_pr() {
    let mut p = full();
    let mut f = playing(None);
    assert!(matches!(
        ask(&mut f, &mut p, "start 42"),
        ForwardStep::StartPr { pr_number: 42 }
    ));
    assert!(matches!(
        ask(&mut f, &mut p, "start +42 "),
        ForwardStep::StartPr { pr_number: 42 }
    ));
    for text in ["start x", "start -1", "start ", "start 4294967296"] {
        assert_eq!(say(ask(&mut f, &mut p, text)), "§cUsage: /start <pr_number>");
    }
    assert_eq!(start_answer(42, Ok(())), None);
    assert_eq!(
        start_answer(42, Err("Jenkins not configured".to_string())),
        Some("§cFailed to start PR #42: Jenkins not configured".to_string())
    );
}

#[test]
fn the_status_of_a_pr() {
    let mut f = playing(None);
    let mut p = plain();
    assert_eq!(say(ask(&mut f, &mut p, "status x")), "§cUsage: /status <pr_number>");
    assert_eq!(say(ask(&mut f, &mut p, "status 42")), "§cKubernetes not configured");
    let mut p = full();
    assert_eq!(
        say(ask(&mut f, &mut p, "status 42")),
        "§7[Status] PR #42 is not running. Use §e/start 42§7 to start it."
    );
    {
        let (_, backends) = p.instances_and_backends().unwrap();
        backends.add_dynamic("pr-42".to_string(), backend(1, None));
    }
    assert_eq!(
        say(ask(&mut f, &mut p, "status 42")),
        "§a[Status] PR #42 is running. Use §e/server pr-42§a to connect."
    );
    p.build_queued(42, String::new(), String::new(), String::new(), now()).unwrap();
    let name = "n".to_string();
    for (state, message) in [
        (
            InstanceState::Building { started_at: now(), build_url: None },
            "§e[Status] PR #42 is building...",
        ),
        (
            InstanceState::Deploying { image_tag: name.clone() },
            "§e[Status] PR #42 is deploying...",
        ),
        (
            InstanceState::Starting {
                deployment_name: name.clone(),
                address: name.clone(),
                port: 1,
                started_at: now(),
            },
            "§e[Status] PR #42 is starting...",
        ),
        (
            InstanceState::Ready {
                deployment_name: name.clone(),
                address: name.clone(),
                port: 1,
                ready_at: now(),
                shutdown_at: now(),
            },
            "§a[Status] PR #42 is ready! Use §e/server pr-42§a to connect.",
        ),
        (
            InstanceState::ShuttingDown { deployment_name: name.clone() },
            "§c[Status] PR #42 is shutting down...",
        ),
        (
            InstanceState::Failed { reason: "Build timeout".to_string() },
            "§c[Status] PR #42 failed: Build timeout",
        ),
    ] {
        p.instances_and_backends().unwrap().0.update_instance_state(42, state);
        assert_eq!(say(ask(&mut f, &mut p, "status 42")), message);
    }
}

#[test]
fn permissions_of_the_own_entity() {
    let mut f = playing(None);
    let event = |entity: i32, status: u8| {
        let mut payload = entity.to_be_bytes().to_vec();
        payload.push(status);
        packet(34, &payload)
    };
    f.handle_backend_packet(&event(-5, 28), &IDS);
    assert_eq!((f.permission_level(), f.entity_id()), (0, None));
    f.handle_backend_packet(&packet(48, &[0xff, 0xff, 0xff]), &IDS);
    assert_eq!(f.entity_id(), None);
    f.handle_backend_packet(&packet(48, &[0xff, 0xff, 0xff, 0xfb, 1, 2]), &IDS);
    assert_eq!(f.entity_id(), Some(-5));
    f.handle_backend_packet(&event(-5, 28), &IDS);
    assert_eq!(f.permission_level(), 4);
    f.handle_backend_packet(&event(5, 24), &IDS);
    f.handle_backend_packet(&event(-5, 23), &IDS);
    f.handle_backend_packet(&event(-5, 29), &IDS);
    f.handle_backend_packet(&packet(34, &[0xff, 0xff, 0xff, 0xfb]), &IDS);
    assert_eq!(f.permission_level(), 4);
    f.handle_backend_packet(&event(-5, 24), &IDS);
    assert_eq!(f.permission_level(), 0);
}

#[test]
fn own_commands_replace_those_of_the_backend() {
    let mut f = playing(None);
    assert!(matches!(
        f.handle_backend_packet(&packet(16, &[1, 2]), &IDS),
        ForwardStep::SendCommands { commands } if commands.nodes.len() == 7
    ));
    let mut f = PacketForwarder::new(1, STEVE, "lobby".to_string(), None);
    assert!(matches!(
        f.handle_backend_packet(&packet(16, &[1, 2]), &IDS),
        ForwardStep::ToClient { .. }
    ));
}

#[test]
fn a_player_keeps_the_identity_of_the_login() {
    let mut p = plain();
    let (name, connector) = match log_in(&mut p, ClientIntent::Login) {
        Ok(HandlerStep::Connect { backend_name, connector }) => (backend_name, connector),
        other => panic!("{:?}", other),
    };
    let mut login = connector.connect(&IDS).2;
    login.on_packet(&packet(3, &[0x80, 0x02]), &IDS).unwrap();
    let mut f = PacketForwarder::after_login(9, &connector, &login, name);
    assert_eq!(f.client_id(), 9);
    match f.handle_client_packet(&packet(3, &[]), &IDS, &mut p) {
        ForwardStep::ToBackend { compression, .. } => {
            assert_eq!(compression, Some(CompressionInfo { threshold: 256, level: 4 }));
        }
        other => panic!("{:?}", other),
    }
    assert!(matches!(ask(&mut f, &mut p, "server survival"), ForwardStep::Transfer { .. }));
    assert_eq!(p.get_target_server(STEVE).as_deref(), Some("survival"));
}

#[test]
fn events_between_a_player_and_a_server() {
    let mut p = plain();
    let mut f = playing(None);
    assert!(matches!(
        f.run(&ForwarderEvent::Backend(Ok(packet(1, &[2]))), &IDS, &mut p),
        ForwardStep::ToClient { must_arrive: true, .. }
    ));
    assert!(matches!(
        f.run(&ForwarderEvent::Client(Ok(packet(1, &[2]))), &IDS, &mut p),
        ForwardStep::ToBackend { .. }
    ));
    assert!(matches!(
        f.run(&ForwarderEvent::Broadcast(Some("hi".to_string())), &IDS, &mut p),
        ForwardStep::Say { text, must_arrive: false } if text == "hi"
    ));
    assert!(matches!(
        f.run(&ForwarderEvent::Broadcast(None), &IDS, &mut p),
        ForwardStep::Nothing
    ));
    assert!(matches!(f.run(&ForwarderEvent::TimedOut, &IDS, &mut p), ForwardStep::Nothing));
    assert!(matches!(
        f.run(&ForwarderEvent::Backend(Err("reset".to_string())), &IDS, &mut p),
        ForwardStep::End { error: Some(text) } if text == "Backend read failed: reset"
    ));
    assert!(matches!(
        f.run(&ForwarderEvent::Client(Err("eof".to_string())), &IDS, &mut p),
        ForwardStep::End { error: None }
    ));
    assert!(matches!(
        f.run(&ForwarderEvent::AllClosed, &IDS, &mut p),
        ForwardStep::End { error: None }
    ));
    assert_eq!(f.client_id(), 1);
}

#[test]
fn a_client_on_its_way_out() {
    let mut p = plain();
    let mut f = playing(None);
    ask(&mut f, &mut p, "server survival");
    assert_eq!(DRAIN_SECS, 2);
    assert!(matches!(
        f.run(&ForwarderEvent::Backend(Ok(packet(16, &[2]))), &IDS, &mut p),
        ForwardStep::ToClient { must_arrive: false, bytes } if bytes == vec![16, 2]
    ));
    assert!(matches!(
        f.run(&ForwarderEvent::Client(Ok(packet(6, &command("server lobby", &[])))), &IDS, &mut p),
        ForwardStep::Nothing
    ));
    assert_eq!(p.get_target_server(STEVE).as_deref(), Some("survival"));
    for event in [
        ForwarderEvent::Backend(Err("reset".to_string())),
        ForwarderEvent::Broadcast(Some("hi".to_string())),
        ForwarderEvent::AllClosed,
    ] {
        assert!(matches!(f.run(&event, &IDS, &mut p), ForwardStep::Nothing));
    }
    assert!(f.is_draining());
    assert!(matches!(
        f.run(&ForwarderEvent::TimedOut, &IDS, &mut p),
        ForwardStep::End { error: None }
    ));
    assert!(matches!(
        f.run(&ForwarderEvent::Client(Err("eof".to_string())), &IDS, &mut p),
        ForwardStep::End { error: None }
    ));
}

#[test]
fn a_ready_pr_can_be_reached_as_advised() {
    let mut p = full();
    let mut walk = Recovery::new(vec![PrBuild {
        id: 1,
        pr_number: 42,
        commit_hash: "full".to_string(),
        commit_hash_short: "short".to_string(),
        image_tag: "pr-42-short".to_string(),
        state: "Ready".to_string(),
        state_data: None,
        created_at: String::new(),
        updated_at: String::new(),
    }]);
    walk.on_readiness(Some(true));
    {
        let (k8s, backends) = p.instances_and_backends().unwrap();
        let service = k8s.get_service_info(Ok(Some(30042)));
        walk.on_service(service, now(), k8s, backends);
    }
    let mut f = playing(None);
    let advice = say(ask(&mut f, &mut p, "status 42"));
    assert!(advice.contains("§e/server pr-42§a"));
    assert!(matches!(ask(&mut f, &mut p, "server pr-42"), ForwardStep::Transfer { .. }));
    match log_in(&mut p, ClientIntent::Transfer) {
        Ok(HandlerStep::Connect { backend_name, connector }) => {
            assert_eq!(backend_name, "pr-42");
            assert_eq!(connector.socket(), "10.0.0.1:30042");
        }
        other => panic!("{:?}", other),
    }
}
