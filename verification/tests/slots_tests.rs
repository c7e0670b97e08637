//! Tests of the publish-subscribe slots and the pipeline fold.

use tls_reload::slots::watch_for_config_changes;
use tls_reload::config::{CommonConfig, CommonSettings, ServerConfig, TlsVersion};
use tls_reload::watch::{PathFingerprint, PollState};

/// A wall-clock second count inside the validity window of the generated
/// certificates.
const NOW: u64 = 1_700_000_000;

fn settings() -> CommonSettings {
    CommonSettings {
        trust_anchors: "/etc/identity/ca.pem".to_string(),
        end_entity_cert: "/etc/identity/leaf.der".to_string(),
        private_key: "/etc/identity/key.p8".to_string(),
    }
}

/// A freshly generated, mutually consistent bundle.
fn load_bundle() -> CommonConfig {
    let mut ca_params = rcgen::CertificateParams::new(Vec::<String>::new());
    ca_params.is_ca = rcgen::IsCa::Ca(rcgen::BasicConstraints::Unconstrained);
    let ca = rcgen::Certificate::from_params(ca_params).expect("ca");
    let ca_pem = ca.serialize_pem().expect("ca pem").into_bytes();
    let leaf_params = rcgen::CertificateParams::new(vec!["svc.example.test".to_string()]);
    let leaf = rcgen::Certificate::from_params(leaf_params).expect("leaf");
    let leaf_der = leaf.serialize_der_with_signer(&ca).expect("leaf der");
    let key_der = leaf.serialize_private_key_der();
    CommonConfig::load_from_parts(&ca_pem, &leaf_der, &key_der, NOW).expect("bundle loads")
}

#[test]
fn settings_paths_in_read_order() {
    let s = settings();
    let paths = s.paths();
    assert_eq!(
        paths,
        vec![
            "/etc/identity/ca.pem".to_string(),
            "/etc/identity/leaf.der".to_string(),
            "/etc/identity/key.p8".to_string(),
        ]
    );
}

#[test]
fn plaintext_mode_is_absent_and_already_done() {
    let (mut client_sub, mut server_sub, mut pipeline) = watch_for_config_changes(None);
    assert!(pipeline.is_finished());
    assert!(pipeline.slots.client_absent());
    assert!(pipeline.slots.server_absent());
    assert!(pipeline.slots.observe_client(&mut client_sub).is_none());
    assert!(pipeline.slots.observe_server(&mut server_sub).is_none());
    // a stray tick changes nothing
    assert!(pipeline.step(None));
    assert!(pipeline.slots.client_absent());
}

#[test]
fn no_tls_server_slot_is_absent_and_done() {
    let (mut sub, mut pipeline) = ServerConfig::no_tls();
    assert!(pipeline.is_finished());
    assert!(pipeline.slots.server_absent());
    assert!(pipeline.slots.observe_server(&mut sub).is_none());
}

#[test]
fn slots_stay_absent_while_loads_fail() {
    let s = settings();
    let (mut client_sub, mut server_sub, mut pipeline) = watch_for_config_changes(Some(&s));
    assert!(!pipeline.is_finished());
    assert_eq!(pipeline.slots.generation_value(), 0);

    // ticks whose load attempts failed: files missing or inconsistent
    assert!(!pipeline.step(None));
    assert!(!pipeline.step(None));

    assert!(pipeline.slots.client_absent());
    assert!(pipeline.slots.server_absent());
    assert!(pipeline.slots.observe_client(&mut client_sub).is_none());
    assert!(pipeline.slots.observe_server(&mut server_sub).is_none());
}

#[test]
fn first_publication_reaches_both_slots_with_one_generation() {
    let s = settings();
    let (mut client_sub, mut server_sub, mut pipeline) = watch_for_config_changes(Some(&s));
    let bundle = load_bundle();

    assert!(!pipeline.step(Some(&bundle)));
    assert_eq!(pipeline.slots.generation_value(), 1);

    let (cg, client) = pipeline.slots.observe_client(&mut client_sub).expect("client view");
    let (sg, server) = pipeline.slots.observe_server(&mut server_sub).expect("server view");
    assert_eq!(cg, 1);
    assert_eq!(sg, 1);
    // both views carry the same chain
    assert_eq!(client.cert_resolver.resolve(), server.cert_resolver.resolve());
    assert_eq!(server.versions, vec![TlsVersion::Tls12]);

    // no second tick for the same generation
    assert!(pipeline.slots.observe_client(&mut client_sub).is_none());
    assert!(pipeline.slots.observe_server(&mut server_sub).is_none());
}

#[test]
fn failed_reload_keeps_previous_generation() {
    let s = settings();
    let (mut client_sub, _server_sub, mut pipeline) = watch_for_config_changes(Some(&s));
    let bundle = load_bundle();

    assert!(!pipeline.step(Some(&bundle)));
    let (g1, first) = pipeline.slots.observe_client(&mut client_sub).expect("generation one");
    assert_eq!(g1, 1);

    // the next tick's load failed: the slots keep generation one
    assert!(!pipeline.step(None));
    assert_eq!(pipeline.slots.generation_value(), 1);
    assert!(pipeline.slots.observe_client(&mut client_sub).is_none());

    // a later successful load publishes generation two
    let newer = load_bundle();
    assert!(!pipeline.step(Some(&newer)));
    let (g2, second) = pipeline.slots.observe_client(&mut client_sub).expect("generation two");
    assert_eq!(g2, 2);
    assert!(g1 < g2);
    assert_ne!(first.cert_resolver.resolve(), second.cert_resolver.resolve());
}

#[test]
fn subscriber_generations_are_monotone() {
    let s = settings();
    let (mut client_sub, _server_sub, mut pipeline) = watch_for_config_changes(Some(&s));
    let bundle = load_bundle();

    // the producer publishes three times before the subscriber looks
    assert!(!pipeline.step(Some(&bundle)));
    assert!(!pipeline.step(Some(&bundle)));
    assert!(!pipeline.step(Some(&bundle)));

    // the subscriber sees only the newest value, and later a newer one
    let (g, _) = pipeline.slots.observe_client(&mut client_sub).expect("latest");
    assert_eq!(g, 3);
    assert!(!pipeline.step(Some(&bundle)));
    let (h, _) = pipeline.slots.observe_client(&mut client_sub).expect("newer");
    assert_eq!(h, 4);
    assert!(g < h);
}

#[test]
fn pipeline_retires_after_last_subscriber_drops() {
    let s = settings();
    let (client_sub, server_sub, mut pipeline) = watch_for_config_changes(Some(&s));
    let bundle = load_bundle();

    assert!(!pipeline.step(Some(&bundle)));

    pipeline.slots.drop_client(client_sub);
    pipeline.slots.drop_server(server_sub);

    // the next successful load finds no subscribers and retires the fold
    assert!(pipeline.step(Some(&bundle)));
    assert!(pipeline.is_finished());
    assert_eq!(pipeline.slots.generation_value(), 1);

    // retired means retired
    assert!(pipeline.step(Some(&bundle)));
    assert!(pipeline.step(None));
}

#[test]
fn files_created_one_at_a_time_publish_only_when_complete() {
    let s = settings();
    let (mut client_sub, mut server_sub, mut pipeline) = watch_for_config_changes(Some(&s));

    // first tick: only the trust anchors exist, the other reads fail
    assert!(!pipeline.step(None));
    assert!(pipeline.slots.client_absent());

    // second tick: anchors and certificate exist, the key read fails
    assert!(!pipeline.step(None));
    assert!(pipeline.slots.server_absent());

    // third tick: all three files are present and mutually consistent
    let bundle = load_bundle();
    assert!(!pipeline.step(Some(&bundle)));
    let (cg, _) = pipeline.slots.observe_client(&mut client_sub).expect("first generation");
    let (sg, _) = pipeline.slots.observe_server(&mut server_sub).expect("first generation");
    assert_eq!(cg, 1);
    assert_eq!(sg, 1);
}

#[test]
fn symlink_retarget_publishes_exactly_one_generation() {
    fn resolved(inode: u64) -> PathFingerprint {
        PathFingerprint { exists: true, device: 8, inode, mtime_secs: 50, mtime_nanos: 0, size: 64 }
    }

    let s = settings();
    let (mut client_sub, _server_sub, mut pipeline) = watch_for_config_changes(Some(&s));
    let mut poll = PollState::new(3);

    // generation one published from data directory A
    assert!(poll.observe(&vec![resolved(100), resolved(101), resolved(102)]));
    let first = load_bundle();
    assert!(!pipeline.step(Some(&first)));
    assert_eq!(pipeline.slots.observe_client(&mut client_sub).expect("first").0, 1);

    // the intermediate directory symlink flips atomically to directory B:
    // one tick, one load of the consistent triple behind it, one generation
    assert!(poll.observe(&vec![resolved(200), resolved(201), resolved(202)]));
    let second = load_bundle();
    assert!(!pipeline.step(Some(&second)));
    assert_eq!(pipeline.slots.observe_client(&mut client_sub).expect("second").0, 2);

    // no further transition, no further tick, no further generation
    assert!(!poll.observe(&vec![resolved(200), resolved(201), resolved(202)]));
    assert_eq!(pipeline.slots.generation_value(), 2);
    assert!(pipeline.slots.observe_client(&mut client_sub).is_none());
}
