use ssh_fanout::factory::ClientFactory;
use ssh_fanout::handler::Auth;
use ssh_fanout::registry::{ChannelKey, Registry};

#[test]
fn scenario_a_two_clients_both_receive() {
    let mut factory = ClientFactory::new();
    let c1 = factory.new_client();
    let c2 = factory.new_client();
    let mut reg = Registry::new();
    assert!(c1.channel_open_session(&mut reg, 10));
    assert!(c2.channel_open_session(&mut reg, 11));

    let writes = c1.data(&reg, 10, &b"hello".to_vec());
    assert_eq!(writes.len(), 2);
    let mut keys: Vec<ChannelKey> = writes.iter().map(|w| w.key).collect();
    keys.sort_by_key(|k| (k.client, k.channel));
    assert_eq!(keys[0], ChannelKey { client: c1.id, channel: 10 });
    assert_eq!(keys[1], ChannelKey { client: c2.id, channel: 11 });
    for w in &writes {
        assert_eq!(w.payload, b"hello".to_vec());
    }
}

#[test]
fn scenario_b_single_client_echoes_to_itself() {
    let mut factory = ClientFactory::new();
    let c1 = factory.new_client();
    let mut reg = Registry::new();
    assert!(c1.channel_open_session(&mut reg, 7));

    let writes = c1.data(&reg, 7, &b"x".to_vec());
    assert_eq!(writes.len(), 1);
    assert_eq!(writes[0].key, ChannelKey { client: c1.id, channel: 7 });
    assert_eq!(writes[0].payload, b"x".to_vec());
}

#[test]
fn scenario_c_reauthentication_keeps_last_key() {
    let mut factory = ClientFactory::new();
    let mut c1 = factory.new_client();
    assert_eq!(c1.client_pubkey, None);

    let first = vec![1u8, 2, 3];
    let second = vec![9u8, 8, 7, 6];
    assert_eq!(c1.auth_publickey("alice", first.clone()), Auth::Accept);
    assert_eq!(c1.client_pubkey, Some(first));
    assert_eq!(c1.auth_publickey("alice", second.clone()), Auth::Accept);
    assert_eq!(c1.client_pubkey, Some(second));
}

#[test]
fn scenario_d_two_channels_one_sender_three_writes() {
    let mut factory = ClientFactory::new();
    let c1 = factory.new_client();
    let c2 = factory.new_client();
    let mut reg = Registry::new();
    assert!(c1.channel_open_session(&mut reg, 1));
    assert!(c1.channel_open_session(&mut reg, 2));
    assert!(c2.channel_open_session(&mut reg, 1));

    let payload = b"fan out".to_vec();
    let writes = c2.data(&reg, 1, &payload);
    assert_eq!(writes.len(), 3);
    let mut keys: Vec<ChannelKey> = writes.iter().map(|w| w.key).collect();
    keys.sort_by_key(|k| (k.client, k.channel));
    assert_eq!(keys[0], ChannelKey { client: c1.id, channel: 1 });
    assert_eq!(keys[1], ChannelKey { client: c1.id, channel: 2 });
    assert_eq!(keys[2], ChannelKey { client: c2.id, channel: 1 });
    for w in &writes {
        assert_eq!(w.payload, payload);
    }
}
