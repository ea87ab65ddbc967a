// End-to-end scenarios. The engine itself is an opaque external component,
// so these tests stand a deterministic double in for it: its query buffer
// is the requested index in little-endian bytes, its reply buffer is the
// element at that index of its ingested database copy, and its decode
// buffer is the reply payload unchanged. The orchestration layer under
// test never looks inside those payloads, so the double exercises exactly
// what the layer owns: parameter forwarding, bounds, lengths, and the
// buffer ledger.

use pir::BufferLedger;
use pir::EngineBuffer;
use pir::PirClient;
use pir::PirServer;
use pir::PirQuery;
use pir::PirReply;

fn double_query_buffer(index: u64) -> Vec<u8> {
    index.to_le_bytes().to_vec()
}

fn double_reply_buffer(database: &[Vec<u8>], query: &PirQuery) -> Vec<u8> {
    let mut raw = [0u8; 8];
    raw.copy_from_slice(&query.query[..8]);
    database[u64::from_le_bytes(raw) as usize].clone()
}

fn double_decode_buffer(reply: &PirReply) -> Vec<u8> {
    reply.reply.clone()
}

fn round_trip(
    client: &PirClient,
    server: &PirServer,
    database: &[Vec<u8>],
    index: u64,
    element_size: usize,
    ledger: &mut BufferLedger,
) -> Vec<u8> {
    assert!(client.index_within_bounds(index));
    let buffer = EngineBuffer::acquire(double_query_buffer(index), ledger);
    let query = client.gen_query(index, buffer, 1, ledger);

    let buffer = EngineBuffer::acquire(double_reply_buffer(database, &query), ledger);
    let reply = server.gen_reply(buffer, 1, ledger);

    let buffer = EngineBuffer::acquire(double_decode_buffer(&reply), ledger);
    assert!(client.decoded_len_matches(&buffer, element_size));
    client.decode_reply(element_size, buffer, ledger)
}

#[test]
fn scenario_eight_elements_of_four_bytes() {
    // 8 elements of 4 bytes each, default alpha and depth: the element at
    // index i is the 4-byte encoding of i.
    let database: Vec<Vec<u8>> = (0u32..8).map(|i| i.to_le_bytes().to_vec()).collect();
    let (server, sp) = PirServer::new(4, 8);
    let (client, cp) = PirClient::new(4, 8);
    assert_eq!(sp, cp);
    assert_eq!(sp.len, 32);
    assert_eq!(sp.alpha, 8);
    assert_eq!(sp.depth, 2);

    let mut ledger = BufferLedger::new();
    for i in 0u64..8 {
        let value = round_trip(&client, &server, &database, i, 4, &mut ledger);
        assert_eq!(value, (i as u32).to_le_bytes().to_vec());
    }
    // Three buffers crossed the boundary per round trip, each released once.
    assert_eq!(ledger.allocation_count(), 24);
    assert_eq!(ledger.release_count(), 24);
    assert!(ledger.is_balanced());
}

#[test]
fn scenario_update_params_then_requery() {
    // Build client and server for a count of 4, then grow to 16: the client
    // through an in-place parameter update, the server by re-creation.
    let small: Vec<Vec<u8>> = (0u32..4).map(|i| i.to_le_bytes().to_vec()).collect();
    let (server, _) = PirServer::new(4, 4);
    let (mut client, _) = PirClient::new(4, 4);
    let mut ledger = BufferLedger::new();
    for i in 0u64..4 {
        let value = round_trip(&client, &server, &small, i, 4, &mut ledger);
        assert_eq!(value, (i as u32).to_le_bytes().to_vec());
    }

    // Against the old shape, indices of the grown database are rejected.
    assert!(!client.index_within_bounds(10));

    let grown: Vec<Vec<u8>> = (0u32..16).map(|i| (3 * i).to_le_bytes().to_vec()).collect();
    let up = client.update_params(4, 16, 8, 2);
    assert_eq!(up.len, 64);
    assert_eq!(up.num, 16);
    let (server, sp) = PirServer::new(4, 16);
    assert_eq!(sp, up);

    // Queries against the new shape decode correctly.
    for i in 0u64..16 {
        let value = round_trip(&client, &server, &grown, i, 4, &mut ledger);
        assert_eq!(value, (3 * i as u32).to_le_bytes().to_vec());
    }
    assert!(ledger.is_balanced());

    // Queries generated against the old shape are no longer assumed valid:
    // the old bound no longer governs, only the new one does.
    assert!(client.index_within_bounds(16));
    assert!(!client.index_within_bounds(17));
}

#[test]
fn scenario_untyped_decode() {
    // A caller that does not know the element shape statically takes the
    // decoded buffer as plain bytes of whatever length the engine reports.
    let database: Vec<Vec<u8>> = vec![vec![5u8; 11], vec![6u8; 11]];
    let (server, _) = PirServer::with_params(11, 2, 4, 1);
    let (client, _) = PirClient::with_params(11, 2, 4, 1);
    let mut ledger = BufferLedger::new();

    let buffer = EngineBuffer::acquire(double_query_buffer(1), &mut ledger);
    let query = client.gen_query(1, buffer, 1, &mut ledger);
    let buffer = EngineBuffer::acquire(double_reply_buffer(&database, &query), &mut ledger);
    let reply = server.gen_reply(buffer, 1, &mut ledger);
    let buffer = EngineBuffer::acquire(double_decode_buffer(&reply), &mut ledger);
    let value = client.decode_reply_to_vec(buffer, &mut ledger);
    assert_eq!(value, vec![6u8; 11]);
    assert!(ledger.is_balanced());
}
