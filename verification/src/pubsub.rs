//! The queue side: wire encoding and decoding of payloads, splitting the
//! received messages into payloads and acknowledgment tokens, preparing a
//! publish request, and chunking acknowledgment tokens to the queue's
//! per-call limit.
use base64::Engine;
use vstd::arithmetic::div_mod::{
    lemma_div_non_zero, lemma_fundamental_div_mod, lemma_fundamental_div_mod_converse,
};
use vstd::prelude::*;

verus! {

/// The queue caps how many tokens one acknowledge call may carry.
pub const ACK_CHUNK_LIMIT: usize = 400;

/// The wire form of a payload: what the standard base64 encoding makes of its
/// UTF-8 bytes.
pub uninterp spec fn encoded_payload(s: Seq<char>) -> Seq<char>;

/// The bytes that a base64 text decodes to: `None` where it is not a valid
/// standard-alphabet encoding.
pub uninterp spec fn b64_decoded(s: Seq<char>) -> Option<Seq<u8>>;

/// The text that a byte sequence reads as: `None` where it is not valid
/// UTF-8.
pub uninterp spec fn utf8_text(b: Seq<u8>) -> Option<Seq<char>>;

/// The text that a wire form decodes back to: its base64 decoding read as
/// UTF-8, `None` where either step fails.
pub open spec fn decoded_payload(s: Seq<char>) -> Option<Seq<char>> {
    match b64_decoded(s) {
        Some(bytes) => utf8_text(bytes),
        None => None,
    }
}

/// Relies on base64's standard-alphabet `encode` over the UTF-8 bytes of
/// `msg`: the encoding is a function of the text alone, and decoding the
/// result yields the text back.
#[verifier::external_body]
fn encode_payload(msg: &String) -> (r: String)
    ensures
        r@ == encoded_payload(msg@),
        decoded_payload(r@) == Some(msg@),
{
    base64::engine::general_purpose::STANDARD.encode(msg.as_bytes())
}

/// Relies on base64's standard-alphabet `decode`: the result is a function of
/// the input alone, `None` exactly where the input is no valid encoding.
#[verifier::external_body]
fn decode_b64(data: &String) -> (r: Option<Vec<u8>>)
    ensures
        r is Some <==> b64_decoded(data@) is Some,
        r matches Some(bytes) ==> Some(bytes@) == b64_decoded(data@),
{
    base64::engine::general_purpose::STANDARD.decode(data.as_bytes()).ok()
}

/// Relies on `String::from_utf8`: the result is a function of the bytes
/// alone, `None` exactly where they are not valid UTF-8.
#[verifier::external_body]
fn bytes_to_text(bytes: Vec<u8>) -> (r: Option<String>)
    ensures
        r is Some <==> utf8_text(bytes@) is Some,
        r matches Some(s) ==> Some(s@) == utf8_text(bytes@),
{
    String::from_utf8(bytes).ok()
}

/// Decodes one payload from its wire form: base64, then UTF-8.
fn decode_wire(data: &String) -> (r: Option<String>)
    ensures
        r is Some <==> decoded_payload(data@) is Some,
        r matches Some(s) ==> Some(s@) == decoded_payload(data@),
{
    match decode_b64(data) {
        Some(bytes) => bytes_to_text(bytes),
        None => None,
    }
}

/// Splits one pull's worth of received messages into their acknowledgment
/// tokens and their decoded payload texts, in delivery order. `None` if any
/// payload is not a valid wire encoding.
pub fn decode_received(received: &Vec<(String, String)>) -> (r: Option<
    (Vec<String>, Vec<String>),
>)
    ensures
        r is Some <==> (forall|i: int|
            0 <= i < received@.len() ==> decoded_payload(
                (#[trigger] received@[i]).1@,
            ) is Some),
        r matches Some((tokens, payloads)) ==> {
            &&& tokens@.len() == received@.len()
            &&& payloads@.len() == received@.len()
            &&& forall|i: int|
                0 <= i < received@.len() ==> (#[trigger] tokens@[i]) == received@[i].0
            &&& forall|i: int|
                0 <= i < received@.len() ==> Some((#[trigger] payloads@[i])@) == decoded_payload(
                    received@[i].1@,
                )
        },
{
    let mut tokens: Vec<String> = Vec::new();
    let mut payloads: Vec<String> = Vec::new();
    let mut i: usize = 0;
    while i < received.len()
        invariant
            i <= received@.len(),
            tokens@.len() == i,
            payloads@.len() == i,
            forall|j: int| 0 <= j < i ==> (#[trigger] tokens@[j]) == received@[j].0,
            forall|j: int|
                #![trigger payloads@[j]]
                #![trigger received@[j]]
                0 <= j < i ==> Some(payloads@[j]@) == decoded_payload(received@[j].1@),
        decreases received@.len() - i,
    {
        match decode_wire(&received[i].1) {
            Some(text) => {
                tokens.push(received[i].0.clone());
                payloads.push(text);
            },
            None => {
                return None;
            },
        }
        i = i + 1;
    }
    Some((tokens, payloads))
}

/// Encodes a batch of payloads for one publish request, in order. `None` for
/// an empty batch: nothing is to be sent then.
pub fn prepare_publish(messages: &Vec<String>) -> (r: Option<Vec<String>>)
    ensures
        r is Some <==> messages@.len() > 0,
        r matches Some(enc) ==> enc@.len() == messages@.len() && (forall|i: int|
            0 <= i < enc@.len() ==> (#[trigger] enc@[i])@ == encoded_payload(messages@[i]@)),
{
    if messages.len() == 0 {
        return None;
    }
    let mut enc: Vec<String> = Vec::new();
    let mut i: usize = 0;
    while i < messages.len()
        invariant
            i <= messages@.len(),
            enc@.len() == i,
            forall|j: int|
                0 <= j < i ==> (#[trigger] enc@[j])@ == encoded_payload(messages@[j]@),
        decreases messages@.len() - i,
    {
        enc.push(encode_payload(&messages[i]));
        i = i + 1;
    }
    Some(enc)
}

/// How long the `i`th chunk is when `total` items are split into chunks of at
/// most `limit`: every chunk but the last is full.
pub open spec fn chunk_len_at(total: int, limit: int, i: int) -> int {
    if total - i * limit < limit {
        total - i * limit
    } else {
        limit
    }
}

/// `chunks` is exactly `ids` split, in order, into the least number of chunks
/// of at most `limit` tokens each: there are ceiling-of-`ids.len()/limit`
/// many, and the `j`th token of the `i`th chunk is token `i * limit + j` of
/// `ids` — so together the chunks carry every token exactly once.
pub open spec fn chunking_of(ids: Seq<String>, chunks: Seq<Vec<String>>, limit: int) -> bool {
    &&& chunks.len() == (ids.len() + limit - 1) / limit
    &&& forall|i: int|
        0 <= i < chunks.len() ==> (#[trigger] chunks[i])@.len() == chunk_len_at(
            ids.len() as int,
            limit,
            i,
        )
    &&& forall|i: int, j: int|
        0 <= i < chunks.len() && 0 <= j < chunks[i]@.len() ==> (#[trigger] chunks[i]@[j])
            == ids[i * limit + j]
}

/// The number of chunks is the ceiling of `n / c` exactly when the last chunk
/// ends at `n` and the one before it would end short of `n`.
proof fn lemma_ceil_div(n: int, c: int, k: int)
    requires
        c > 0,
        0 <= n,
        0 <= k,
        n <= k * c,
        k * c < n + c,
    ensures
        k == (n + c - 1) / c,
{
    lemma_fundamental_div_mod_converse(n + c - 1, c, k, n + c - 1 - k * c);
}

/// A valid chunking carries every token exactly once: concatenating the
/// chunks, in order, gives back exactly the original token sequence — nothing
/// is dropped and nothing is duplicated.
pub proof fn lemma_chunks_concat(ids: Seq<String>, chunks: Seq<Vec<String>>, limit: int)
    requires
        limit > 0,
        chunking_of(ids, chunks, limit),
    ensures
        chunks.map_values(|c: Vec<String>| c@).flatten() == ids,
    decreases chunks.len(),
{
    let views = chunks.map_values(|c: Vec<String>| c@);
    let n = ids.len() as int;
    if chunks.len() == 0 {
        if n > 0 {
            lemma_div_non_zero(n + limit - 1, limit);
        }
        assert(views.flatten() =~= ids);
    } else {
        if n == 0 {
            lemma_fundamental_div_mod_converse(limit - 1, limit, 0, limit - 1);
        }
        let l0 = chunk_len_at(n, limit, 0);
        let rest_ids = ids.skip(l0);
        let rest = chunks.drop_first();
        let k = chunks.len() as int;
        if n <= limit {
            lemma_fundamental_div_mod_converse(n + limit - 1, limit, 1, n - 1);
            lemma_fundamental_div_mod_converse(limit - 1, limit, 0, limit - 1);
        } else {
            lemma_fundamental_div_mod(n + limit - 1, limit);
            let r = (n + limit - 1) % limit;
            assert((k - 1) * limit == k * limit - limit) by (nonlinear_arith);
            assert(n + limit - 1 == k * limit + r);
            lemma_fundamental_div_mod_converse(n - 1, limit, k - 1, r);
        }
        assert forall|i: int| 0 <= i < rest.len() implies (#[trigger] rest[i])@.len()
            == chunk_len_at(rest_ids.len() as int, limit, i) by {
            assert(rest[i] == chunks[i + 1]);
            assert((i + 1) * limit == i * limit + limit) by (nonlinear_arith);
        }
        assert forall|i: int, j: int|
            0 <= i < rest.len() && 0 <= j < rest[i]@.len() implies (#[trigger] rest[i]@[j])
            == rest_ids[i * limit + j] by {
            assert(rest[i] == chunks[i + 1]);
            assert((i + 1) * limit == i * limit + limit) by (nonlinear_arith);
            assert(chunks[i + 1]@[j] == ids[(i + 1) * limit + j]);
        }
        lemma_chunks_concat(rest_ids, rest, limit);
        assert(views.flatten() == views.first() + views.drop_first().flatten());
        assert(views.drop_first() =~= rest.map_values(|c: Vec<String>| c@));
        assert(views.first() =~= ids.take(l0));
        assert(views.flatten() =~= ids);
    }
}

/// Splits the buffered acknowledgment tokens into request-sized chunks, in
/// order, each at most `ACK_CHUNK_LIMIT` long: one acknowledge call is owed
/// per chunk.
pub fn chunk_acks(ack_ids: &Vec<String>) -> (r: Vec<Vec<String>>)
    ensures
        chunking_of(ack_ids@, r@, ACK_CHUNK_LIMIT as int),
{
    let total = ack_ids.len();
    let mut r: Vec<Vec<String>> = Vec::new();
    let mut idx: usize = 0;
    while idx < total
        invariant
            total == ack_ids@.len(),
            idx <= total,
            idx <= r@.len() * (ACK_CHUNK_LIMIT as int),
            idx == r@.len() * (ACK_CHUNK_LIMIT as int) || (idx == total && r@.len() >= 1 && (r@.len()
                - 1) * (ACK_CHUNK_LIMIT as int) < idx),
            forall|i: int|
                0 <= i < r@.len() ==> (#[trigger] r@[i])@.len() == chunk_len_at(
                    total as int,
                    ACK_CHUNK_LIMIT as int,
                    i,
                ),
            forall|i: int, j: int|
                0 <= i < r@.len() && 0 <= j < r@[i]@.len() ==> (#[trigger] r@[i]@[j]) == ack_ids@[i
                    * (ACK_CHUNK_LIMIT as int) + j],
        decreases total - idx,
    {
        let take = if total - idx < ACK_CHUNK_LIMIT {
            total - idx
        } else {
            ACK_CHUNK_LIMIT
        };
        let mut chunk: Vec<String> = Vec::new();
        let mut j: usize = 0;
        while j < take
            invariant
                idx + take <= total,
                total == ack_ids@.len(),
                j <= take,
                chunk@.len() == j,
                forall|t: int| 0 <= t < j ==> (#[trigger] chunk@[t]) == ack_ids@[idx + t],
            decreases take - j,
        {
            chunk.push(ack_ids[idx + j].clone());
            j = j + 1;
        }
        r.push(chunk);
        idx = idx + take;
    }
    proof {
        if total == 0 {
            assert(r@.len() == 0);
        } else {
            lemma_ceil_div(total as int, ACK_CHUNK_LIMIT as int, r@.len() as int);
        }
    }
    r
}

} // verus!
