use steel_proxy::backends::BackendMap;
use steel_proxy::config::{BackendServer, JenkinsConfig, KubernetesConfig, ResourceLimits};
use steel_proxy::db::models::{Bind, PrBuild};
use steel_proxy::jenkins::{BuildStatus, JenkinsClient};
use steel_proxy::k8s::instance::{
    backend_name_of, build_tag_of, resource_name_of, InstanceState, Moment, PrInstance,
};
use steel_proxy::k8s::lifecycle::{
    begin_turn, on_build_status, on_build_url, on_deleted, on_deployment, on_readiness, on_saved,
    on_service, LifecycleStep, STARTUP_TIMEOUT_SECS,
};
use steel_proxy::k8s::manifest::{ClusterError, DeletionStep, DeploymentStep, ServiceStep};
use steel_proxy::k8s::recovery::{Recovery, RecoveryStep};
use steel_proxy::k8s::K8sManager;
use steel_proxy::proxy::registry::BackendRegistry;

const SECOND: u128 = 1_000_000_000;

fn at(seconds: u128) -> Moment {
    Moment { nanos: seconds * SECOND }
}

fn manager() -> K8sManager {
    K8sManager::new(KubernetesConfig {
        namespace: "pr".to_string(),
        registry: "localhost:5000/steel".to_string(),
        instance_timeout_minutes: 30,
        image_name: "steel-server".to_string(),
        resources: ResourceLimits::default(),
        node_address: "10.0.0.1".to_string(),
    })
}

fn jenkins() -> JenkinsClient {
    JenkinsClient::new(JenkinsConfig {
        url: "https://j".to_string(),
        job_name: "job".to_string(),
        username: "u".to_string(),
        api_token: "t".to_string(),
        build_timeout_minutes: 15,
    })
}

fn registry() -> BackendRegistry {
    let mut fixed = BackendMap::new();
    fixed.insert(
        "lobby".to_string(),
        BackendServer { address: "127.0.0.1".to_string(), port: 25566, description: None },
    );
    BackendRegistry::new(fixed)
}

fn building(m: &mut K8sManager, pr: u32) -> PrInstance {
    m.create_building_instance(
        pr,
        "abcdef0123".to_string(),
        "abcdef0".to_string(),
        "https://j/queue/7/".to_string(),
        at(0),
    );
    instance(m, pr)
}

fn instance(m: &K8sManager, pr: u32) -> PrInstance {
    let row = m.get_instances_snapshot();
    let found = row.into_iter().find(|e| e.0 == pr);
    found.unwrap().1
}

fn word(m: &K8sManager, pr: u32) -> &'static str {
    m.get_instance_state(pr).unwrap().status_text()
}

#[test]
fn names_of_what_runs_for_a_pr() {
    assert_eq!(build_tag_of(42, "abc1234"), "pr-42-abc1234");
    assert_eq!(resource_name_of(42), "steel-pr-42");
    assert_eq!(backend_name_of(42), "pr-42");
    let i = PrInstance::new_deploying(
        42,
        "full".to_string(),
        "abc1234".to_string(),
        "pr-42-abc1234".to_string(),
    );
    assert_eq!(
        i.image_tag("localhost:5000/steel", "steel-server"),
        "localhost:5000/steel/steel-server:pr-42-abc1234"
    );
}

#[test]
fn names_differ_from_pr_to_pr() {
    assert_ne!(backend_name_of(1), backend_name_of(11));
    assert_ne!(resource_name_of(1), resource_name_of(11));
    assert_ne!(build_tag_of(1, "1-x"), build_tag_of(11, "x"));
}

#[test]
fn words_for_states() {
    let name = "steel-pr-1".to_string();
    let states = [
        InstanceState::Building { started_at: at(0), build_url: None },
        InstanceState::Deploying { image_tag: name.clone() },
        InstanceState::Starting {
            deployment_name: name.clone(),
            address: name.clone(),
            port: 1,
            started_at: at(0),
        },
        InstanceState::Ready {
            deployment_name: name.clone(),
            address: name.clone(),
            port: 1,
            ready_at: at(0),
            shutdown_at: at(1),
        },
        InstanceState::ShuttingDown { deployment_name: name.clone() },
        InstanceState::Failed { reason: name },
    ];
    let words: Vec<&str> = states.iter().map(|s| s.status_text()).collect();
    assert_eq!(
        words,
        vec!["building", "deploying", "starting", "ready", "shutting down", "failed"]
    );
}

#[test]
fn moments_on_a_clock() {
    assert!(!at(0).older_than(at(300), 300));
    assert!(at(0).older_than(Moment { nanos: 300 * SECOND + 1 }, 300));
    assert!(!at(10).older_than(at(0), 0));
    assert_eq!(at(1).plus_minutes(30), at(1801));
}

#[test]
fn instances_are_kept_by_pr() {
    let mut m = manager();
    assert!(!m.has_instance(1));
    building(&mut m, 1);
    m.create_deploying_instance(2, "f".to_string(), "s".to_string());
    assert!(m.has_instance(1) && m.has_instance(2));
    assert!(
        matches!(m.get_instance_state(2), Some(InstanceState::Deploying { image_tag })
            if image_tag == "pr-2-s")
    );
    let mut prs: Vec<u32> = m.get_instances_snapshot().iter().map(|e| e.0).collect();
    prs.sort();
    assert_eq!(prs, vec![1, 2]);
    m.update_instance_state(3, InstanceState::Failed { reason: String::new() });
    assert!(!m.has_instance(3));
    m.update_instance_state(1, InstanceState::Failed { reason: "x".to_string() });
    assert_eq!(word(&m, 1), "failed");
    assert_eq!(word(&m, 2), "deploying");
    m.remove_instance(1);
    assert!(m.get_instance_state(1).is_none());
    assert!(m.has_instance(2));
}

#[test]
fn a_pr_is_offered_under_its_name() {
    let m = manager();
    let mut r = registry();
    m.register_backend(42, "10.0.0.1".to_string(), 30042, &mut r);
    let b = r.get("pr-42").unwrap();
    assert_eq!((b.address.as_str(), b.port), ("10.0.0.1", 30042));
    assert_eq!(b.description.as_deref(), Some("PR #42"));
    m.unregister_backend(42, &mut r);
    assert!(!r.contains("pr-42"));
    assert!(r.contains("lobby"));
}

#[test]
fn what_the_cluster_is_asked_to_run() {
    let m = manager();
    let d = match m.create_deployment(42, "pr-42-abc1234") {
        DeploymentStep::DeleteOld { manifest } => manifest,
        other => panic!("{:?}", other),
    };
    let labels = vec![
        ("app".to_string(), "steel-server".to_string()),
        ("pr".to_string(), "42".to_string()),
    ];
    assert_eq!(d.name, "steel-pr-42");
    assert_eq!(d.namespace, "pr");
    assert_eq!(d.labels, labels);
    assert_eq!(d.replicas, 1);
    assert_eq!(d.container_name, "steel-server");
    assert_eq!(d.image, "localhost:5000/steel/steel-server:pr-42-abc1234");
    assert_eq!((d.container_port, d.port_name.as_str(), d.probe_port), (25565, "minecraft", 25565));
    assert_eq!((d.memory_limit.as_str(), d.cpu_limit.as_str()), ("2Gi", "1000m"));
    assert_eq!((d.memory_request.as_str(), d.cpu_request.as_str()), ("512Mi", "250m"));
    assert_eq!((d.probe_delay_secs, d.probe_period_secs), (10, 5));
    let s = match m.create_service(42) {
        ServiceStep::DeleteOld { manifest } => manifest,
        other => panic!("{:?}", other),
    };
    assert_eq!((s.name, s.namespace), (d.name, d.namespace));
    assert_eq!(s.selector, labels);
    assert_eq!((s.port, s.target_port), (25565, 25565));
    assert_eq!((s.port_name.as_str(), s.service_type.as_str()), ("minecraft", "NodePort"));
}

fn api(code: u16) -> ClusterError {
    ClusterError::Api { code, text: format!("code {}", code) }
}

#[test]
fn what_the_cluster_answers() {
    let m = manager();
    let step = m.create_deployment(42, "t").after_delete(&Ok(()));
    assert!(matches!(&step, DeploymentStep::Create { after_secs: 2, .. }));
    assert!(matches!(step.after_create(&Ok(())), DeploymentStep::Created { name }
        if name == "steel-pr-42"));
    for e in [api(404), api(500)] {
        let step = m.create_deployment(42, "t").after_delete(&Err(e));
        assert!(matches!(&step, DeploymentStep::Create { after_secs: 0, .. }));
        assert!(matches!(step.after_create(&Err(api(409))), DeploymentStep::Failed { text }
            if text == "Failed to create deployment"));
    }
    let create = || m.create_service(42).after_delete();
    for (node_port, expected) in [(30042, 30042), (-1, 65535), (65536 + 7, 7)] {
        let step = m.service_created(create(), &Ok(Some(node_port)));
        assert!(matches!(step, ServiceStep::Created { address, port }
            if address == "10.0.0.1" && port == expected));
    }
    assert!(matches!(m.service_created(create(), &Ok(None)), ServiceStep::Failed { text }
        if text == "No NodePort assigned"));
    assert!(matches!(m.service_created(create(), &Err(api(403))),
        ServiceStep::Failed { text } if text == "Failed to create service"));
    assert_eq!(
        m.get_service_info(Ok(Some(30042))),
        Ok(Some(("10.0.0.1".to_string(), 30042)))
    );
    assert_eq!(m.get_service_info(Ok(None)), Ok(None));
    assert_eq!(m.get_service_info(Err(api(404))), Ok(None));
    assert_eq!(m.get_service_info(Err(api(500))), Err("code 500".to_string()));
    assert!(K8sManager::is_deployment_ready(Some(1)));
    assert!(!K8sManager::is_deployment_ready(Some(0)));
    assert!(!K8sManager::is_deployment_ready(None));
}

#[test]
fn deleting_a_deployment_and_its_service() {
    let m = manager();
    let first = m.delete_instance(42);
    assert!(matches!(&first, DeletionStep::DeleteDeployment { name } if name == "steel-pr-42"));
    let second = first.next(Ok(()));
    assert!(matches!(&second, DeletionStep::DeleteService { name } if name == "steel-pr-42"));
    assert!(matches!(second.next(Err(api(404))), DeletionStep::Done));
    let gone = m.delete_instance(42).next(Err(api(404)));
    assert!(matches!(&gone, DeletionStep::DeleteService { .. }));
    let failed = gone.next(Err(ClusterError::Other { text: "timeout".to_string() }));
    assert!(matches!(failed, DeletionStep::Failed { text } if text == "timeout"));
    assert!(matches!(
        m.delete_instance(42).next(Err(api(403))),
        DeletionStep::Failed { text } if text == "code 403"
    ));
}

#[test]
fn a_pr_from_build_to_shutdown() {
    let mut m = manager();
    let mut r = registry();
    let i = building(&mut m, 42);
    let t = begin_turn(42, &i, &jenkins(), at(10), &mut m, &mut r);
    assert!(t.announce.is_none());
    assert!(matches!(t.step, LifecycleStep::AskBuildUrl { queue_url }
        if queue_url == "https://j/queue/7/"));
    let t = on_build_url(Some(Some("https://j/9/".to_string())));
    assert!(matches!(t.step, LifecycleStep::AskBuildStatus { build_url }
        if build_url == "https://j/9/"));
    let t = on_build_status(42, "abcdef0", Some(BuildStatus::Success), &mut m);
    assert_eq!(t.announce.as_deref(), Some("§a[Proxy] PR #42 build completed! Deploying..."));
    assert_eq!(word(&m, 42), "deploying");

    let i = instance(&m, 42);
    let t = begin_turn(42, &i, &jenkins(), at(20), &mut m, &mut r);
    assert!(matches!(t.step, LifecycleStep::CreateDeployment { image_tag }
        if image_tag == "pr-42-abcdef0"));
    let t = on_deployment(42, Ok("steel-pr-42".to_string()), &mut m);
    assert!(matches!(t.step, LifecycleStep::CreateService { deployment_name }
        if deployment_name == "steel-pr-42"));
    let t = on_service(
        42,
        "steel-pr-42".to_string(),
        Ok(("10.0.0.1".to_string(), 30042)),
        at(21),
        &mut m,
    );
    assert!(t.announce.is_none());
    assert_eq!(word(&m, 42), "starting");
    assert!(!r.contains("pr-42"));

    let i = instance(&m, 42);
    let t = begin_turn(42, &i, &jenkins(), at(30), &mut m, &mut r);
    assert!(matches!(t.step, LifecycleStep::AskReadiness { deployment_name, address, port }
        if deployment_name == "steel-pr-42" && address == "10.0.0.1" && port == 30042));
    let t = on_readiness(
        42,
        &i,
        "steel-pr-42".to_string(),
        "10.0.0.1".to_string(),
        30042,
        Some(true),
        at(31),
        &mut m,
        &mut r,
    );
    assert!(t.announce.is_none());
    match t.step {
        LifecycleStep::SaveBuild { statement } => {
            assert_eq!(statement.binds.len(), 6);
            assert!(matches!(&statement.binds[3], Bind::Text(tag) if tag == "pr-42-abcdef0"));
            assert!(matches!(&statement.binds[4], Bind::Text(state) if state == "Ready"));
        }
        other => panic!("{:?}", other),
    }
    assert_eq!(r.get("pr-42").unwrap().port, 30042);
    assert_eq!(
        on_saved(42).announce.as_deref(),
        Some("§a[Proxy] PR #42 is ready! Use §e/server pr-42§a to connect.")
    );

    let i = instance(&m, 42);
    let before = Moment { nanos: (31 + 1800) * SECOND - 1 };
    let t = begin_turn(42, &i, &jenkins(), before, &mut m, &mut r);
    assert!(t.announce.is_none() && matches!(t.step, LifecycleStep::Idle));
    assert!(r.contains("pr-42"));
    let t = begin_turn(42, &i, &jenkins(), at(31 + 1800), &mut m, &mut r);
    assert_eq!(
        t.announce.as_deref(),
        Some("§e[Proxy] PR #42 is shutting down (timeout expired)")
    );
    assert_eq!(word(&m, 42), "shutting down");
    assert!(!r.contains("pr-42"));

    let i = instance(&m, 42);
    let t = begin_turn(42, &i, &jenkins(), at(2000), &mut m, &mut r);
    assert!(matches!(t.step, LifecycleStep::DeleteResources));
    assert!(m.has_instance(42));
    assert!(on_deleted(42, None, &mut m).announce.is_none());
    assert!(!m.has_instance(42));
    assert!(r.contains("lobby"));
}

#[test]
fn builds_that_do_not_finish() {
    let mut m = manager();
    let mut r = registry();
    let i = building(&mut m, 1);
    let other = building(&mut m, 2);
    let t = begin_turn(1, &i, &jenkins(), at(900), &mut m, &mut r);
    assert!(matches!(t.step, LifecycleStep::AskBuildUrl { .. }));
    let t = begin_turn(1, &i, &jenkins(), at(901), &mut m, &mut r);
    assert_eq!(
        t.announce.as_deref(),
        Some("§c[Proxy] PR #1 build timed out after 15 minutes")
    );
    assert!(matches!(m.get_instance_state(1), Some(InstanceState::Failed { reason })
        if reason == "Build timeout"));
    assert_eq!(word(&m, 2), "building");
    let failed = instance(&m, 1);
    let t = begin_turn(1, &failed, &jenkins(), at(910), &mut m, &mut r);
    assert!(t.announce.is_none() && matches!(t.step, LifecycleStep::Idle));
    assert!(!m.has_instance(1));

    assert!(matches!(on_build_url(Some(None)).step, LifecycleStep::Idle));
    assert!(matches!(on_build_url(None).step, LifecycleStep::Idle));
    let short = other.commit_hash_short;
    for reply in [Some(BuildStatus::Building), Some(BuildStatus::Queued), None] {
        let t = on_build_status(2, &short, reply, &mut m);
        assert!(t.announce.is_none());
        assert_eq!(word(&m, 2), "building");
    }
    let t = on_build_status(2, &short, Some(BuildStatus::NotFound), &mut m);
    assert!(t.announce.is_none());
    assert!(matches!(m.get_instance_state(2), Some(InstanceState::Failed { reason })
        if reason == "Build not found"));
    building(&mut m, 3);
    let reply = Some(BuildStatus::Failed { reason: "ABORTED".to_string() });
    let t = on_build_status(3, &short, reply, &mut m);
    assert_eq!(t.announce.as_deref(), Some("§c[Proxy] PR #3 build failed: ABORTED"));
    assert!(matches!(m.get_instance_state(3), Some(InstanceState::Failed { reason })
        if reason == "ABORTED"));
}

#[test]
fn a_build_without_a_place_in_the_queue_waits() {
    let mut m = manager();
    let mut r = registry();
    let mut i = building(&mut m, 1);
    i.state = InstanceState::Building { started_at: at(0), build_url: None };
    let t = begin_turn(1, &i, &jenkins(), at(10), &mut m, &mut r);
    assert!(t.announce.is_none() && matches!(t.step, LifecycleStep::Idle));
}

#[test]
fn deployments_that_fail() {
    let mut m = manager();
    let mut r = registry();
    m.create_deploying_instance(1, "f".to_string(), "s".to_string());
    m.create_deploying_instance(2, "f".to_string(), "s".to_string());
    let t = on_deployment(1, Err("no quota".to_string()), &mut m);
    assert_eq!(t.announce.as_deref(), Some("§c[Proxy] Failed to deploy PR #1: no quota"));
    assert!(matches!(m.get_instance_state(1), Some(InstanceState::Failed { reason })
        if reason == "Deployment failed: no quota"));
    let t = on_service(2, "steel-pr-2".to_string(), Err("no port".to_string()), at(0), &mut m);
    assert_eq!(
        t.announce.as_deref(),
        Some("§c[Proxy] Failed to create service for PR #2: no port")
    );
    assert!(matches!(m.get_instance_state(2), Some(InstanceState::Failed { reason })
        if reason == "Service creation failed: no port"));

    m.create_deploying_instance(3, "f".to_string(), "s".to_string());
    on_service(
        3,
        "steel-pr-3".to_string(),
        Ok(("10.0.0.1".to_string(), 30003)),
        at(100),
        &mut m,
    );
    let i = instance(&m, 3);
    for reply in [Some(false), None] {
        let t = on_readiness(
            3,
            &i,
            "steel-pr-3".to_string(),
            "10.0.0.1".to_string(),
            30003,
            reply,
            at(110),
            &mut m,
            &mut r,
        );
        assert!(matches!(t.step, LifecycleStep::Idle));
        assert_eq!(word(&m, 3), "starting");
        assert!(!r.contains("pr-3"));
    }
    assert_eq!(STARTUP_TIMEOUT_SECS, 300);
    let t = begin_turn(3, &i, &jenkins(), at(400), &mut m, &mut r);
    assert!(matches!(t.step, LifecycleStep::AskReadiness { .. }));
    let t = begin_turn(3, &i, &jenkins(), at(401), &mut m, &mut r);
    assert_eq!(t.announce.as_deref(), Some("§c[Proxy] PR #3 startup timed out"));
    assert!(matches!(m.get_instance_state(3), Some(InstanceState::ShuttingDown { deployment_name })
        if deployment_name == "steel-pr-3"));
    let t = on_deleted(3, Some("forbidden".to_string()), &mut m);
    assert_eq!(t.announce.as_deref(), Some("§c[Proxy] Failed to clean up PR #3: forbidden"));
    assert!(!m.has_instance(3));
}

fn build(pr_number: i64) -> PrBuild {
    PrBuild {
        id: 1,
        pr_number,
        commit_hash: "full".to_string(),
        commit_hash_short: "short".to_string(),
        image_tag: "pr-x-short".to_string(),
        state: "Ready".to_string(),
        state_data: None,
        created_at: String::new(),
        updated_at: String::new(),
    }
}

fn forgets(step: &RecoveryStep, pr: i64) -> bool {
    match step {
        RecoveryStep::Forget { statement } => {
            statement.sql.starts_with("DELETE")
                && matches!(&statement.binds[0], Bind::Integer(n) if *n == pr)
        }
        _ => false,
    }
}

#[test]
fn running_instances_are_found_again() {
    let mut m = manager();
    let mut r = registry();
    assert!(K8sManager::recover_from_db().sql.contains("state NOT IN ('Failed', 'ShuttingDown')"));
    let mut walk = Recovery::new(vec![build(1), build(2), build(3), build(4), build(5)]);
    assert!(matches!(walk.next_step(), RecoveryStep::AskReadiness { deployment_name }
        if deployment_name == "steel-pr-1"));

    assert!(matches!(walk.on_readiness(Some(true)), RecoveryStep::AskService { service_name }
        if service_name == "steel-pr-1"));
    let found = Ok(Some(("10.0.0.1".to_string(), 30001)));
    let step = walk.on_service(found, at(50), &mut m, &mut r);
    assert!(matches!(step, RecoveryStep::AskReadiness { deployment_name }
        if deployment_name == "steel-pr-2"));
    assert!(matches!(m.get_instance_state(1),
        Some(InstanceState::Ready { deployment_name, address, port, ready_at, shutdown_at })
        if deployment_name == "steel-pr-1" && address == "10.0.0.1" && port == 30001
            && ready_at == at(50) && shutdown_at == at(1850)));
    assert_eq!(r.get("pr-1").unwrap().port, 30001);

    let step = walk.on_readiness(Some(false));
    assert!(matches!(step, RecoveryStep::AskReadiness { deployment_name }
        if deployment_name == "steel-pr-3"));
    assert!(forgets(&walk.on_readiness(None), 3));
    walk.on_readiness(Some(true));
    assert!(forgets(&walk.on_service(Ok(None), at(50), &mut m, &mut r), 4));
    walk.on_readiness(Some(true));
    let failed = Err("no answer".to_string());
    assert!(forgets(&walk.on_service(failed, at(50), &mut m, &mut r), 5));
    assert!(matches!(walk.next_step(), RecoveryStep::Done { recovered: 1 }));
    assert!(matches!(walk.on_readiness(Some(true)), RecoveryStep::Done { recovered: 1 }));
    assert_eq!(m.get_instances_snapshot().len(), 1);
    assert!(!r.contains("pr-2") && !r.contains("pr-4"));
}

#[test]
fn recorded_numbers_are_cut_to_thirty_two_bits() {
    let walk = Recovery::new(vec![build(4294967296 + 7)]);
    assert!(matches!(walk.next_step(), RecoveryStep::AskReadiness { deployment_name }
        if deployment_name == "steel-pr-7"));
    let walk = Recovery::new(vec![build(-1)]);
    assert!(matches!(walk.next_step(), RecoveryStep::AskReadiness { deployment_name }
        if deployment_name == "steel-pr-4294967295"));
    let walk = Recovery::new(vec![]);
    assert!(matches!(walk.next_step(), RecoveryStep::Done { recovered: 0 }));
}

#[test]
fn the_last_record_of_a_pr_counts() {
    let mut m = manager();
    let mut r = registry();
    let mut later = build(4294967296 + 7);
    later.commit_hash_short = "later".to_string();
    let mut walk = Recovery::new(vec![build(7), later, build(8)]);
    for port in [30001, 30002] {
        walk.on_readiness(Some(true));
        let found = Ok(Some(("10.0.0.1".to_string(), port)));
        walk.on_service(found, at(0), &mut m, &mut r);
    }
    assert!(matches!(walk.on_readiness(Some(false)), RecoveryStep::Done { recovered: 2 }));
    assert_eq!(m.get_instances_snapshot().len(), 1);
    assert_eq!(instance(&m, 7).commit_hash_short, "later");
    assert_eq!(r.get("pr-7").unwrap().port, 30002);
    assert!(!m.has_instance(8) && !r.contains("pr-8"));
}

#[test]
fn a_round_takes_each_instance_one_step() {
    let mut m = manager();
    let mut r = registry();
    building(&mut m, 1);
    m.create_deploying_instance(2, "f".to_string(), "s".to_string());
    building(&mut m, 3);
    m.update_instance_state(3, InstanceState::Failed { reason: "x".to_string() });
    for (pr, i) in m.get_instances_snapshot() {
        let turn = begin_turn(pr, &i, &jenkins(), at(10), &mut m, &mut r);
        match turn.step {
            LifecycleStep::AskBuildUrl { .. } => {
                on_build_url(None);
            }
            LifecycleStep::CreateDeployment { .. } => {
                let next = on_deployment(pr, Ok(resource_name_of(pr)), &mut m);
                assert!(matches!(next.step, LifecycleStep::CreateService { .. }));
                let service = Ok(("10.0.0.1".to_string(), 30002));
                let last = on_service(pr, resource_name_of(pr), service, at(11), &mut m);
                assert!(matches!(last.step, LifecycleStep::Idle));
            }
            other => assert!(matches!(other, LifecycleStep::Idle)),
        }
    }
    assert_eq!((word(&m, 1), word(&m, 2)), ("building", "starting"));
    assert!(!m.has_instance(3));
    assert_eq!(instance(&m, 2).commit_hash_short, "s");
}
