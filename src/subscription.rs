//! Subscribe requests: built fresh for each (channel, instrument) pair with their
//! own timestamp and signature, and written as JSON text.

use vstd::prelude::*;
use vstd::string::*;
use vstd::utf8::encode_utf8;
use crate::models::ChannelSubscriptionMessage;
use crate::signing::{create_ws_signature, join_commas, string_views, ws_signature};
use crate::text::{decimal, decimal_string, json_quote, json_quoted};

verus! {

/// The JSON string literals of the items, comma-joined.
pub open spec fn quoted_list(items: Seq<Seq<char>>) -> Seq<char> {
    join_commas(items.map_values(|x: Seq<char>| json_quoted(x)))
}

/// The wire text of a subscribe request, members in this order: `type`,
/// `product_ids`, `channel`, `api_key`, `timestamp`, `signature`.
pub open spec fn subscription_json(m: ChannelSubscriptionMessage) -> Seq<char> {
    "{\"type\":"@ + json_quoted(m.msg_type@) + ",\"product_ids\":["@ + quoted_list(string_views(m.product_ids@))
        + "],\"channel\":"@ + json_quoted(m.channel@) + ",\"api_key\":"@ + json_quoted(m.api_key@)
        + ",\"timestamp\":"@ + json_quoted(m.timestamp@) + ",\"signature\":"@ + json_quoted(m.signature@) + "}"@
}

/// The subscribe request for one channel and one instrument made at `now`
/// (seconds since the epoch), signed with the UTF-8 bytes of `secret`.
pub open spec fn subscription_matches(
    m: ChannelSubscriptionMessage,
    channel: Seq<char>,
    product: Seq<char>,
    key: Seq<char>,
    secret: Seq<char>,
    now: nat,
) -> bool {
    &&& m.msg_type@ == "subscribe"@
    &&& string_views(m.product_ids@) == seq![product]
    &&& m.channel@ == channel
    &&& m.api_key@ == key
    &&& m.timestamp@ == decimal(now)
    &&& m.signature@ == ws_signature(decimal(now), channel, seq![product], encode_utf8(secret))
}

/// Builds the subscribe request for `channel` and `product` at `now`.
pub fn new_subscription(channel: &String, product: &String, key: &String, secret: &String, now: u64) -> (r: ChannelSubscriptionMessage)
    ensures
        subscription_matches(r, channel@, product@, key@, secret@, now as nat),
{
    let ts = decimal_string(now);
    let mut ids: Vec<String> = Vec::new();
    ids.push(product.clone());
    let mut ids_signed: Vec<String> = Vec::new();
    ids_signed.push(product.clone());
    assert(string_views(ids@) =~= seq![product@]);
    assert(string_views(ids_signed@) =~= seq![product@]);
    let signature = create_ws_signature(ts.clone(), channel.clone(), ids_signed, secret.as_str().as_bytes());
    ChannelSubscriptionMessage {
        msg_type: String::from_str("subscribe"),
        product_ids: ids,
        channel: channel.clone(),
        api_key: key.clone(),
        timestamp: ts,
        signature,
    }
}

/// The JSON string literals of the strings, comma-joined.
fn quote_list(items: &Vec<String>) -> (r: String)
    ensures
        r@ == quoted_list(string_views(items@)),
{
    let mut out = String::new();
    let mut i: usize = 0;
    while i < items.len()
        invariant
            i <= items.len(),
            out@ == quoted_list(string_views(items@.subrange(0, i as int))),
        decreases items.len() - i,
    {
        proof {
            reveal_strlit(",");
            let prev = string_views(items@.subrange(0, i as int)).map_values(|x: Seq<char>| json_quoted(x));
            let next = string_views(items@.subrange(0, i + 1)).map_values(|x: Seq<char>| json_quoted(x));
            assert(next.drop_last() =~= prev);
        }
        if i > 0 {
            out.append(",");
        }
        let q = json_quote(items[i].as_str());
        out.append(q.as_str());
        i = i + 1;
    }
    assert(items@.subrange(0, i as int) =~= items@);
    out
}

impl ChannelSubscriptionMessage {
    /// The request as JSON text.
    pub fn to_json(&self) -> (r: String)
        ensures
            r@ == subscription_json(*self),
    {
        let mut s = String::from_str("{\"type\":");
        s.append(json_quote(self.msg_type.as_str()).as_str());
        s.append(",\"product_ids\":[");
        s.append(quote_list(&self.product_ids).as_str());
        s.append("],\"channel\":");
        s.append(json_quote(self.channel.as_str()).as_str());
        s.append(",\"api_key\":");
        s.append(json_quote(self.api_key.as_str()).as_str());
        s.append(",\"timestamp\":");
        s.append(json_quote(self.timestamp.as_str()).as_str());
        s.append(",\"signature\":");
        s.append(json_quote(self.signature.as_str()).as_str());
        s.append("}");
        s
    }
}

} // verus!
