use cpace::laws::complete_run;
use cpace::CPace;
use cpace::Error;

#[test]
fn complete_run_agrees() {
    let (initiator, responder) =
        complete_run("password", "client", "server", Some("ad".as_bytes())).unwrap();
    assert_eq!(initiator.k1, responder.k1);
    assert_eq!(initiator.k2, responder.k2);

    let r = complete_run("password", &"x".repeat(256), "server", None::<&[u8]>);
    assert!(matches!(r, Err(Error::Overflow(_))));
}

#[test]
fn test_cpace() {
    let client = CPace::step1("password", "client", "server", Some("ad".as_bytes())).unwrap();

    let step2 = CPace::step2(
        &client.packet(),
        "password",
        "client",
        "server",
        Some("ad".as_bytes()),
    )
    .unwrap();

    let shared_keys = client.step3(&step2.packet()).unwrap();

    assert_eq!(shared_keys.k1, step2.shared_keys().k1);
    assert_eq!(shared_keys.k2, step2.shared_keys().k2);
}

#[test]
fn end_to_end_scenario() {
    let client = CPace::step1("password", "client", "server", Some("ad".as_bytes())).unwrap();
    let step1_packet = client.packet();
    assert_eq!(step1_packet.len(), cpace::STEP1_PACKET_BYTES);

    let server = CPace::step2(
        &step1_packet,
        "password",
        "client",
        "server",
        Some("ad".as_bytes()),
    )
    .unwrap();
    let step2_packet = server.packet();
    assert_eq!(step2_packet.len(), cpace::STEP2_PACKET_BYTES);

    let client_keys = client.step3(&step2_packet).unwrap();
    let server_keys = server.shared_keys();
    assert_eq!(client_keys.k1, server_keys.k1);
    assert_eq!(client_keys.k2, server_keys.k2);
    assert_eq!(client_keys.k1.len(), cpace::SHARED_KEY_BYTES);
    assert_eq!(client_keys.k2.len(), cpace::SHARED_KEY_BYTES);

    // The two sides' public elements come from fresh independent scalars.
    let client_element: [u8; 32] = step1_packet[16..48].try_into().unwrap();
    assert_ne!(client_element, step2_packet);
}

#[test]
fn generator_is_deterministic() {
    // Two responder runs over the same first packet derive the same
    // generator: each agrees with the initiator that sent that packet.
    let client = CPace::step1("password", "client", "server", None::<&[u8]>).unwrap();
    let packet = client.packet();

    let first = CPace::step2(&packet, "password", "client", "server", None::<&[u8]>).unwrap();
    let second = CPace::step2(&packet, "password", "client", "server", None::<&[u8]>).unwrap();

    let keys_with_first = client.step3(&first.packet()).unwrap();
    assert_eq!(keys_with_first.k1, first.shared_keys().k1);
    assert_eq!(keys_with_first.k2, first.shared_keys().k2);

    let keys_with_second = client.step3(&second.packet()).unwrap();
    assert_eq!(keys_with_second.k1, second.shared_keys().k1);
    assert_eq!(keys_with_second.k2, second.shared_keys().k2);

    // The two responder runs drew fresh scalars, so their elements differ.
    assert_ne!(first.packet(), second.packet());
    assert_ne!(first.shared_keys().k1, second.shared_keys().k1);
}

#[test]
fn changed_input_changes_keys() {
    let client = CPace::step1("password", "client", "server", Some("ad".as_bytes())).unwrap();
    let packet = client.packet();

    let variations: [(&str, &str, &str, Option<&[u8]>); 5] = [
        ("passworD", "client", "server", Some("ad".as_bytes())),
        ("password", "Client", "server", Some("ad".as_bytes())),
        ("password", "client", "Server", Some("ad".as_bytes())),
        ("password", "client", "server", Some("AD".as_bytes())),
        ("password", "server", "client", Some("ad".as_bytes())),
    ];
    for (password, id_a, id_b, ad) in variations {
        let other = CPace::step2(&packet, password, id_a, id_b, ad).unwrap();
        let client_keys = client.step3(&other.packet()).unwrap();
        let other_keys = other.shared_keys();
        assert_ne!(client_keys.k1, other_keys.k1);
        assert_ne!(client_keys.k2, other_keys.k2);
    }
}

#[test]
fn ephemeral_pair_is_random() {
    let first = CPace::step1("password", "client", "server", None::<&[u8]>).unwrap();
    let second = CPace::step1("password", "client", "server", None::<&[u8]>).unwrap();
    let p1 = first.packet();
    let p2 = second.packet();

    // Fresh session id and fresh public element on every run.
    assert_ne!(p1[..16], p2[..16]);
    assert_ne!(p1[16..], p2[16..]);

    // Consequently full runs derive different keys.
    let r1 = CPace::step2(&p1, "password", "client", "server", None::<&[u8]>).unwrap();
    let r2 = CPace::step2(&p2, "password", "client", "server", None::<&[u8]>).unwrap();
    let k1 = first.step3(&r1.packet()).unwrap();
    let k2 = second.step3(&r2.packet()).unwrap();
    assert_ne!(k1.k1, k2.k1);
    assert_ne!(k1.k2, k2.k2);
}

#[test]
fn oversized_identity_is_rejected() {
    let long = "x".repeat(256);
    let ok = "x".repeat(255);

    let r = CPace::step1(&"password", &long, "server", None::<&[u8]>);
    assert!(matches!(r, Err(Error::Overflow(_))));
    let r = CPace::step1(&"password", "client", &long, None::<&[u8]>);
    assert!(matches!(r, Err(Error::Overflow(_))));

    // 255 bytes is the last accepted length.
    let client = CPace::step1(&"password", &ok, &ok, None::<&[u8]>).unwrap();

    let r = CPace::step2(&client.packet(), "password", &long, "server", None::<&[u8]>);
    assert!(matches!(r, Err(Error::Overflow(_))));

    let server = CPace::step2(&client.packet(), "password", &ok, &ok, None::<&[u8]>).unwrap();
    let keys = client.step3(&server.packet()).unwrap();
    assert_eq!(keys.k1, server.shared_keys().k1);
}

#[test]
fn invalid_peer_element_is_rejected() {
    // 0xff.. is larger than the field modulus: not a canonical encoding.
    let bad_element = [0xffu8; 32];

    let client = CPace::step1("password", "client", "server", None::<&[u8]>).unwrap();
    let r = client.step3(&bad_element);
    assert!(matches!(r, Err(Error::InvalidPublicKey)));

    let mut bad_step1 = client.packet();
    for i in 0..32 {
        bad_step1[16 + i] = 0xff;
    }
    let r = CPace::step2(&bad_step1, "password", "client", "server", None::<&[u8]>);
    assert!(matches!(r, Err(Error::InvalidPublicKey)));
}
