//! HMAC-SHA256 signatures over the canonical strings of the REST and the
//! streaming protocols, hex-encoded.

use vstd::prelude::*;
use vstd::string::*;

verus! {

/// The lowercase hex digit of a value below sixteen.
pub open spec fn hex_digit(n: u8) -> char {
    seq!['0', '1', '2', '3', '4', '5', '6', '7', '8', '9', 'a', 'b', 'c', 'd', 'e', 'f'][(n % 16) as int]
}

/// Each byte as two lowercase hex digits, high nibble first.
pub open spec fn hex_lower(bytes: Seq<u8>) -> Seq<char>
    decreases bytes.len(),
{
    if bytes.len() == 0 {
        Seq::empty()
    } else {
        hex_lower(bytes.drop_last()) + seq![hex_digit(bytes.last() / 16), hex_digit(bytes.last() % 16)]
    }
}

proof fn lemma_hex_lower_len(bytes: Seq<u8>)
    ensures
        hex_lower(bytes).len() == 2 * bytes.len(),
    decreases bytes.len(),
{
    if bytes.len() > 0 {
        lemma_hex_lower_len(bytes.drop_last());
    }
}

/// The HMAC-SHA256 tag of the UTF-8 bytes of `message` under `key`.
pub uninterp spec fn hmac_sha256_of(key: Seq<u8>, message: Seq<char>) -> Seq<u8>;

/// Relies on hmac's `Hmac<Sha256>`: `new_from_slice` accepts a key of any length
/// (longer keys are hashed first), and the 32-byte tag depends on key and message alone.
#[verifier::external_body]
fn hmac_sha256(key: &[u8], message: &str) -> (r: Vec<u8>)
    ensures
        r@ == hmac_sha256_of(key@, message@),
        r@.len() == 32,
{
    let mut mac = <hmac::Hmac<sha2::Sha256> as hmac::Mac>::new_from_slice(key).unwrap();
    hmac::Mac::update(&mut mac, message.as_bytes());
    hmac::Mac::finalize(mac).into_bytes().to_vec()
}

/// Relies on hex::encode: every byte becomes two lowercase hex digits, high nibble first.
#[verifier::external_body]
fn hex_encode(bytes: &Vec<u8>) -> (r: String)
    ensures
        r@ == hex_lower(bytes@),
{
    hex::encode(bytes)
}

/// The items separated by single commas, with no separator at either end.
pub open spec fn join_commas(items: Seq<Seq<char>>) -> Seq<char>
    decreases items.len(),
{
    if items.len() == 0 {
        Seq::empty()
    } else if items.len() == 1 {
        items[0]
    } else {
        join_commas(items.drop_last()) + seq![','] + items.last()
    }
}

/// The views of a list of strings.
pub open spec fn string_views(items: Seq<String>) -> Seq<Seq<char>> {
    items.map_values(|s: String| s@)
}

/// What a REST request signs: timestamp, method, path and body, back to back.
pub open spec fn rest_message(ts: Seq<char>, method: Seq<char>, path: Seq<char>, body: Seq<char>) -> Seq<char> {
    ts + method + path + body
}

/// What a subscription signs: timestamp, channel and the comma-joined instruments.
pub open spec fn ws_message(ts: Seq<char>, channel: Seq<char>, products: Seq<Seq<char>>) -> Seq<char> {
    ts + channel + join_commas(products)
}

pub open spec fn rest_signature(
    ts: Seq<char>,
    method: Seq<char>,
    path: Seq<char>,
    body: Seq<char>,
    key: Seq<u8>,
) -> Seq<char> {
    hex_lower(hmac_sha256_of(key, rest_message(ts, method, path, body)))
}

pub open spec fn ws_signature(ts: Seq<char>, channel: Seq<char>, products: Seq<Seq<char>>, key: Seq<u8>) -> Seq<char> {
    hex_lower(hmac_sha256_of(key, ws_message(ts, channel, products)))
}

/// Joins the strings with commas.
pub fn join_with_commas(items: &Vec<String>) -> (r: String)
    ensures
        r@ == join_commas(string_views(items@)),
{
    let mut out = String::new();
    let mut i: usize = 0;
    while i < items.len()
        invariant
            i <= items.len(),
            out@ == join_commas(string_views(items@.subrange(0, i as int))),
        decreases items.len() - i,
    {
        proof {
            reveal_strlit(",");
            let next = items@.subrange(0, i + 1);
            assert(next.drop_last() =~= items@.subrange(0, i as int));
            assert(string_views(next).drop_last() =~= string_views(items@.subrange(0, i as int)));
        }
        if i > 0 {
            out.append(",");
        }
        out.append(items[i].as_str());
        i = i + 1;
    }
    assert(items@.subrange(0, i as int) =~= items@);
    out
}

/// Signs a REST request: hex of HMAC-SHA256 over `ts ++ method ++ request_path ++ body`.
pub fn create_rest_signature(ts: &str, method: &str, request_path: &str, body: &str, secret_key: &[u8]) -> (r: String)
    ensures
        r@ == rest_signature(ts@, method@, request_path@, body@, secret_key@),
        r@.len() == 64,
{
    let mut message = String::from_str(ts);
    message.append(method);
    message.append(request_path);
    message.append(body);
    let tag = hmac_sha256(secret_key, message.as_str());
    proof {
        lemma_hex_lower_len(tag@);
    }
    hex_encode(&tag)
}

/// Signs a subscription: hex of HMAC-SHA256 over `ts ++ channel ++ join(products, ",")`.
pub fn create_ws_signature(ts: String, channel: String, products: Vec<String>, secret_key: &[u8]) -> (r: String)
    ensures
        r@ == ws_signature(ts@, channel@, string_views(products@), secret_key@),
        r@.len() == 64,
{
    let joined = join_with_commas(&products);
    let mut message = ts;
    message.append(channel.as_str());
    message.append(joined.as_str());
    let tag = hmac_sha256(secret_key, message.as_str());
    proof {
        lemma_hex_lower_len(tag@);
    }
    hex_encode(&tag)
}


proof fn lemma_middle_cancels(a: Seq<char>, x: Seq<char>, y: Seq<char>, c: Seq<char>)
    requires
        a + x + c == a + y + c,
    ensures
        x == y,
{
    let j = a + x + c;
    assert(j.len() == (a + y + c).len());
    assert(x.len() == y.len());
    assert forall|i: int| 0 <= i < x.len() implies x[i] == y[i] by {
        assert(j[a.len() + i] == x[i]);
        assert((a + y + c)[a.len() + i] == y[i]);
    }
    assert(x =~= y);
}

/// Both signatures are functions of their inputs alone: equal inputs give equal
/// signatures.
pub proof fn signatures_are_deterministic(
    ts: Seq<char>,
    method: Seq<char>,
    path: Seq<char>,
    body: Seq<char>,
    channel: Seq<char>,
    products: Seq<Seq<char>>,
    key: Seq<u8>,
    ts2: Seq<char>,
    method2: Seq<char>,
    path2: Seq<char>,
    body2: Seq<char>,
    channel2: Seq<char>,
    products2: Seq<Seq<char>>,
    key2: Seq<u8>,
)
    ensures
        (ts == ts2 && method == method2 && path == path2 && body == body2 && key == key2)
            ==> rest_signature(ts, method, path, body, key) == rest_signature(ts2, method2, path2, body2, key2),
        (ts == ts2 && channel == channel2 && products == products2 && key == key2)
            ==> ws_signature(ts, channel, products, key) == ws_signature(ts2, channel2, products2, key2),
{
}

/// Changing exactly one of timestamp, method, path or body changes the message that a
/// REST signature is computed over.
pub proof fn rest_message_changes_with_each_field(
    ts: Seq<char>,
    method: Seq<char>,
    path: Seq<char>,
    body: Seq<char>,
    other: Seq<char>,
)
    ensures
        other != ts ==> rest_message(other, method, path, body) != rest_message(ts, method, path, body),
        other != method ==> rest_message(ts, other, path, body) != rest_message(ts, method, path, body),
        other != path ==> rest_message(ts, method, other, body) != rest_message(ts, method, path, body),
        other != body ==> rest_message(ts, method, path, other) != rest_message(ts, method, path, body),
{
    let e = Seq::<char>::empty();
    if rest_message(other, method, path, body) == rest_message(ts, method, path, body) {
        assert(rest_message(other, method, path, body) =~= e + other + (method + path + body));
        assert(rest_message(ts, method, path, body) =~= e + ts + (method + path + body));
        lemma_middle_cancels(e, other, ts, method + path + body);
    }
    if rest_message(ts, other, path, body) == rest_message(ts, method, path, body) {
        assert(rest_message(ts, other, path, body) =~= ts + other + (path + body));
        assert(rest_message(ts, method, path, body) =~= ts + method + (path + body));
        lemma_middle_cancels(ts, other, method, path + body);
    }
    if rest_message(ts, method, other, body) == rest_message(ts, method, path, body) {
        lemma_middle_cancels(ts + method, other, path, body);
    }
    if rest_message(ts, method, path, other) == rest_message(ts, method, path, body) {
        assert(rest_message(ts, method, path, other) =~= ts + method + path + other + e);
        assert(rest_message(ts, method, path, body) =~= ts + method + path + body + e);
        lemma_middle_cancels(ts + method + path, other, body, e);
    }
}

/// Changing exactly the timestamp or exactly the channel changes the message that a
/// subscription signature is computed over.
pub proof fn ws_message_changes_with_timestamp_and_channel(
    ts: Seq<char>,
    channel: Seq<char>,
    products: Seq<Seq<char>>,
    other: Seq<char>,
)
    ensures
        other != ts ==> ws_message(other, channel, products) != ws_message(ts, channel, products),
        other != channel ==> ws_message(ts, other, products) != ws_message(ts, channel, products),
{
    let e = Seq::<char>::empty();
    let j = join_commas(products);
    if ws_message(other, channel, products) == ws_message(ts, channel, products) {
        assert(ws_message(other, channel, products) =~= e + other + (channel + j));
        assert(ws_message(ts, channel, products) =~= e + ts + (channel + j));
        lemma_middle_cancels(e, other, ts, channel + j);
    }
    if ws_message(ts, other, products) == ws_message(ts, channel, products) {
        lemma_middle_cancels(ts, other, channel, j);
    }
}

/// The instruments are joined in list order with single commas between them and none
/// at the end; for one instrument the signed message is exactly
/// `ts ++ channel ++ instrument`.
pub proof fn subscription_join_order(ts: Seq<char>, channel: Seq<char>, products: Seq<Seq<char>>, product: Seq<char>, key: Seq<u8>)
    ensures
        join_commas(seq![product]) == product,
        products.len() > 0 ==> join_commas(products.push(product)) == join_commas(products) + seq![','] + product,
        ws_message(ts, channel, seq![product]) == ts + channel + product,
        ws_signature(ts, channel, seq![product], key) == hex_lower(hmac_sha256_of(key, ts + channel + product)),
{
    if products.len() > 0 {
        assert(products.push(product).drop_last() =~= products);
    }
}


/// No comma in the text.
pub open spec fn comma_free(s: Seq<char>) -> bool {
    forall|i: int| 0 <= i < s.len() ==> s[i] != ','
}

proof fn lemma_join_of_many_has_comma(items: Seq<Seq<char>>)
    requires
        items.len() >= 2,
    ensures
        !comma_free(join_commas(items)),
{
    let p = join_commas(items.drop_last());
    assert((p + seq![','] + items.last())[p.len() as int] == ',');
}

proof fn lemma_last_field_splits(p: Seq<char>, x: Seq<char>, q: Seq<char>, y: Seq<char>)
    requires
        p + seq![','] + x == q + seq![','] + y,
        comma_free(x),
        comma_free(y),
    ensures
        x == y,
        p == q,
{
    let j = p + seq![','] + x;
    assert(j.len() == p.len() + 1 + x.len());
    assert((q + seq![','] + y).len() == q.len() + 1 + y.len());
    assert(j[p.len() as int] == ',');
    assert(j[q.len() as int] == ',');
    if x.len() < y.len() {
        assert(p.len() > q.len());
        assert((q + seq![','] + y)[p.len() as int] == y[p.len() - q.len() - 1]);
    } else if y.len() < x.len() {
        assert(q.len() > p.len());
        assert((p + seq![','] + x)[q.len() as int] == x[q.len() - p.len() - 1]);
    }
    assert(x =~= j.subrange(p.len() as int + 1, j.len() as int));
    assert(y =~= j.subrange(q.len() as int + 1, j.len() as int));
    assert(p =~= j.subrange(0, p.len() as int));
    assert(q =~= j.subrange(0, q.len() as int));
}

/// Comma-joining is one-to-one on non-empty lists of comma-free items.
pub proof fn join_is_injective(a: Seq<Seq<char>>, b: Seq<Seq<char>>)
    requires
        a.len() > 0,
        b.len() > 0,
        forall|i: int| 0 <= i < a.len() ==> comma_free(#[trigger] a[i]),
        forall|i: int| 0 <= i < b.len() ==> comma_free(#[trigger] b[i]),
        join_commas(a) == join_commas(b),
    ensures
        a == b,
    decreases a.len(),
{
    if a.len() == 1 && b.len() == 1 {
        assert(a =~= b);
    } else if a.len() == 1 {
        lemma_join_of_many_has_comma(b);
        assert(comma_free(a[0]));
    } else if b.len() == 1 {
        lemma_join_of_many_has_comma(a);
        assert(comma_free(b[0]));
    } else {
        lemma_last_field_splits(join_commas(a.drop_last()), a.last(), join_commas(b.drop_last()), b.last());
        join_is_injective(a.drop_last(), b.drop_last());
        assert(a =~= a.drop_last().push(a.last()));
        assert(b =~= b.drop_last().push(b.last()));
    }
}

/// Changing the instrument list (its items or their order) changes the message that a
/// subscription signature is computed over, where both lists are non-empty and no
/// instrument holds a comma.
pub proof fn ws_message_changes_with_instruments(
    ts: Seq<char>,
    channel: Seq<char>,
    products: Seq<Seq<char>>,
    other: Seq<Seq<char>>,
)
    requires
        products.len() > 0,
        other.len() > 0,
        forall|i: int| 0 <= i < products.len() ==> comma_free(#[trigger] products[i]),
        forall|i: int| 0 <= i < other.len() ==> comma_free(#[trigger] other[i]),
    ensures
        other != products ==> ws_message(ts, channel, other) != ws_message(ts, channel, products),
{
    if ws_message(ts, channel, other) == ws_message(ts, channel, products) {
        let e = Seq::<char>::empty();
        assert(ws_message(ts, channel, other) =~= (ts + channel) + join_commas(other) + e);
        assert(ws_message(ts, channel, products) =~= (ts + channel) + join_commas(products) + e);
        lemma_middle_cancels(ts + channel, join_commas(other), join_commas(products), e);
        join_is_injective(other, products);
    }
}

} // verus!
