use cpace::CPace;

// Flipping any single bit of the first packet must either fail decoding on
// the responder's side or leave the two sides with different keys: the
// tampering never goes unnoticed once keys are compared.
#[test]
fn tampered_step1_packet_never_agrees() {
    let client = CPace::step1("password", "client", "server", Some("ad".as_bytes())).unwrap();
    let packet = client.packet();

    for byte in 0..48 {
        for bit in 0..8 {
            let mut tampered = packet;
            tampered[byte] ^= 1u8 << bit;
            match CPace::step2(
                &tampered,
                "password",
                "client",
                "server",
                Some("ad".as_bytes()),
            ) {
                Err(_) => (),
                Ok(server) => {
                    let client_keys = client.step3(&server.packet()).unwrap();
                    let server_keys = server.shared_keys();
                    assert_ne!(client_keys.k1, server_keys.k1);
                    assert_ne!(client_keys.k2, server_keys.k2);
                },
            }
        }
    }
}

// The same for every single bit of the second packet: the initiator either
// rejects it or derives keys that disagree with the honest responder's.
#[test]
fn tampered_step2_packet_never_agrees() {
    let client = CPace::step1("password", "client", "server", Some("ad".as_bytes())).unwrap();
    let server = CPace::step2(
        &client.packet(),
        "password",
        "client",
        "server",
        Some("ad".as_bytes()),
    )
    .unwrap();
    let packet = server.packet();
    let server_keys = server.shared_keys();

    for byte in 0..32 {
        for bit in 0..8 {
            let mut tampered = packet;
            tampered[byte] ^= 1u8 << bit;
            match client.step3(&tampered) {
                Err(_) => (),
                Ok(client_keys) => {
                    assert_ne!(client_keys.k1, server_keys.k1);
                    assert_ne!(client_keys.k2, server_keys.k2);
                },
            }
        }
    }
}
