use bqloader::pubsub::{chunk_acks, decode_received, prepare_publish, ACK_CHUNK_LIMIT};

fn ids(n: usize) -> Vec<String> {
    (0..n).map(|i| format!("id{}", i)).collect()
}

#[test]
fn publish_of_nothing_prepares_nothing() {
    // An empty publish issues zero network calls: there is no request at all.
    let none = prepare_publish(&Vec::new());
    assert!(none.is_none());
}

#[test]
fn publish_encodes_every_payload() {
    let enc = prepare_publish(&vec![String::from("hello"), String::from("a,b,1")]).unwrap();
    assert_eq!(enc.len(), 2);
    assert_eq!(enc[0], "aGVsbG8=");
    assert_eq!(enc[1], "YSxiLDE=");
}

#[test]
fn decode_inverts_the_wire_encoding() {
    let enc = prepare_publish(&vec![String::from("a,b,1")]).unwrap();
    let (tokens, payloads) =
        decode_received(&vec![(String::from("t1"), enc[0].clone())]).unwrap();
    assert_eq!(tokens, vec![String::from("t1")]);
    assert_eq!(payloads, vec![String::from("a,b,1")]);
}

#[test]
fn decode_rejects_text_that_is_no_encoding() {
    let r = decode_received(&vec![(String::from("t1"), String::from("a,b,1"))]);
    assert!(r.is_none());
}

#[test]
fn decode_keeps_delivery_order() {
    let enc = prepare_publish(&vec![String::from("first"), String::from("second")]).unwrap();
    let received = vec![
        (String::from("tA"), enc[0].clone()),
        (String::from("tB"), enc[1].clone()),
    ];
    let (tokens, payloads) = decode_received(&received).unwrap();
    assert_eq!(tokens, vec![String::from("tA"), String::from("tB")]);
    assert_eq!(payloads, vec![String::from("first"), String::from("second")]);
}

#[test]
fn no_tokens_need_no_chunks() {
    assert_eq!(chunk_acks(&Vec::new()).len(), 0);
}

#[test]
fn one_token_fits_one_chunk() {
    let chunks = chunk_acks(&ids(1));
    assert_eq!(chunks.len(), 1);
    assert_eq!(chunks[0], vec![String::from("id0")]);
}

#[test]
fn a_full_chunk_is_not_split() {
    let chunks = chunk_acks(&ids(ACK_CHUNK_LIMIT));
    assert_eq!(chunks.len(), 1);
    assert_eq!(chunks[0].len(), ACK_CHUNK_LIMIT);
}

#[test]
fn one_token_over_the_limit_starts_a_second_chunk() {
    let chunks = chunk_acks(&ids(ACK_CHUNK_LIMIT + 1));
    assert_eq!(chunks.len(), 2);
    assert_eq!(chunks[0].len(), ACK_CHUNK_LIMIT);
    assert_eq!(chunks[1].len(), 1);
    assert_eq!(chunks[1][0], format!("id{}", ACK_CHUNK_LIMIT));
}

#[test]
fn chunks_carry_every_token_once_in_order() {
    let all = ids(1000);
    let chunks = chunk_acks(&all);
    assert_eq!(chunks.len(), 3);
    assert_eq!(chunks[0].len(), 400);
    assert_eq!(chunks[1].len(), 400);
    assert_eq!(chunks[2].len(), 200);
    let flattened: Vec<String> = chunks.into_iter().flatten().collect();
    assert_eq!(flattened, all);
}
