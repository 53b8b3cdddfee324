use vstd::prelude::*;
use vstd::string::StringExecFns;

use crate::config::{BASE_URL, MARKET_SLUG};
use crate::decimal::{decimal_string, decimal_text};
use crate::text::owned;

verus! {

/// Path and query of the events endpoint, up to the slug.
pub const EVENTS_QUERY: &'static str = "/events?slug=";

/// Separator between the slug prefix and the window start.
pub const SLUG_SEPARATOR: &'static str = "-";

/// Opening of the market-channel subscription, up to the first token.
pub const SUBSCRIBE_HEAD: &'static str = "{\"assets_ids\":[";

/// Separator between the two subscribed tokens.
pub const SUBSCRIBE_SEPARATOR: &'static str = ",";

/// Closing of the market-channel subscription, after the second token.
pub const SUBSCRIBE_TAIL: &'static str = "],\"custom_feature_enabled\":true,\"type\":\"market\"}";

/// The market slug of the window that starts at `window_start`.
pub open spec fn spec_window_slug(window_start: nat) -> Seq<char> {
    MARKET_SLUG@ + SLUG_SEPARATOR@ + decimal_text(window_start)
}

/// The URL that asks the events endpoint for the window named `time`.
pub open spec fn spec_event_url(time: Seq<char>) -> Seq<char> {
    BASE_URL@ + EVENTS_QUERY@ + MARKET_SLUG@ + SLUG_SEPARATOR@ + time
}

/// The slug of the market that trades the window starting at `window_start`.
pub fn window_slug(window_start: u64) -> (res: String)
    ensures
        res@ == spec_window_slug(window_start as nat),
{
    let mut res = owned(MARKET_SLUG);
    res.append(SLUG_SEPARATOR);
    let time = decimal_string(window_start);
    res.append(time.as_str());
    res
}

/// The URL of the events query for the window named `time` (its start in
/// Unix seconds, as decimal text).
pub fn event_url(time: &str) -> (res: String)
    ensures
        res@ == spec_event_url(time@),
{
    let mut res = owned(BASE_URL);
    res.append(EVENTS_QUERY);
    res.append(MARKET_SLUG);
    res.append(SLUG_SEPARATOR);
    res.append(time);
    res
}

#[verifier::external_type_specification]
#[verifier::external_body]
pub struct ExJsonError(serde_json::Error);

/// What `serde_json` reads from `text` as a JSON array of strings: the
/// strings, or `None` when the text is no such array.
pub uninterp spec fn json_string_array(text: Seq<char>) -> Option<Seq<Seq<char>>>;

/// The JSON string literal (quotes and escapes included) that `serde_json`
/// writes for `text`.
pub uninterp spec fn json_quoted(text: Seq<char>) -> Seq<char>;

/// Trusted: calls `serde_json::from_str::<Vec<String>>`. The contract says
/// that it succeeds exactly when the text is a JSON array of strings, and
/// that the strings it returns are the ones `json_string_array` names; what
/// JSON text is accepted is left to the name.
#[verifier::external_body]
fn parse_json_string_array(text: &str) -> (res: Result<Vec<String>, serde_json::Error>)
    ensures
        res is Ok <==> json_string_array(text@) is Some,
        res matches Ok(ids) ==> ids@.map_values(|s: String| s@) == json_string_array(text@)->0,
{
    serde_json::from_str::<Vec<String>>(text)
}

/// Trusted: calls `serde_json::to_string::<str>`. The contract says that it
/// succeeds and returns `json_quoted` of the text. Success holds because
/// `serde_json` documents failure only for `Serialize` impls that decide to
/// fail and for maps with non-string keys, and the `str` impl writes the
/// escaped string into a `Vec<u8>`, which cannot fail; the escaping itself
/// is left to the name.
#[verifier::external_body]
fn quote_json_string(text: &str) -> (res: Result<String, serde_json::Error>)
    ensures
        res is Ok,
        res matches Ok(quoted) ==> quoted@ == json_quoted(text@),
{
    serde_json::to_string(text)
}

/// Why the token ids of a market could not be read.
#[derive(Debug, Clone, Copy, PartialEq, Eq, Structural)]
pub enum TokenIdsError {
    /// The field is not a JSON array of strings.
    Malformed,
    /// The array holds fewer than two token ids.
    MissingTokens,
}

/// The two outcome tokens of an Up/Down market.
pub struct TokenPair {
    pub up: String,
    pub down: String,
}

/// The Up and Down tokens of a market, from the list of its token ids:
/// the first id is Up, the second Down.
pub fn token_pair_from_ids(ids: &Vec<String>) -> (res: Result<TokenPair, TokenIdsError>)
    ensures
        res is Ok <==> ids.len() >= 2,
        res matches Ok(pair) ==> pair.up@ == ids@[0]@ && pair.down@ == ids@[1]@,
        res matches Err(e) ==> e == TokenIdsError::MissingTokens,
{
    if ids.len() < 2 {
        return Err(TokenIdsError::MissingTokens);
    }
    Ok(TokenPair { up: ids[0].clone(), down: ids[1].clone() })
}

/// The Up and Down tokens of a market, from its `clobTokenIds` field (a
/// JSON array of strings written inside a string).
pub fn select_tokens(clob_token_ids: &str) -> (res: Result<TokenPair, TokenIdsError>)
    ensures
        match json_string_array(clob_token_ids@) {
            None => res == Err::<TokenPair, TokenIdsError>(TokenIdsError::Malformed),
            Some(ids) => if ids.len() >= 2 {
                res matches Ok(pair) && pair.up@ == ids[0] && pair.down@ == ids[1]
            } else {
                res == Err::<TokenPair, TokenIdsError>(TokenIdsError::MissingTokens)
            },
        },
{
    match parse_json_string_array(clob_token_ids) {
        Err(_) => Err(TokenIdsError::Malformed),
        Ok(ids) => {
            proof {
                let views = ids@.map_values(|s: String| s@);
                assert(views.len() == ids@.len());
                if ids@.len() >= 2 {
                    assert(views[0] == ids@[0]@);
                    assert(views[1] == ids@[1]@);
                }
            }
            token_pair_from_ids(&ids)
        },
    }
}

/// The subscription text built from the two quoted tokens.
pub open spec fn spec_subscribe_payload(quoted_up: Seq<char>, quoted_down: Seq<char>) -> Seq<char> {
    SUBSCRIBE_HEAD@ + quoted_up + SUBSCRIBE_SEPARATOR@ + quoted_down + SUBSCRIBE_TAIL@
}

/// The market-channel subscription for two tokens already written as JSON
/// string literals; the keys come in the order `serde_json` writes them.
pub fn subscribe_payload(quoted_up: &str, quoted_down: &str) -> (res: String)
    ensures
        res@ == spec_subscribe_payload(quoted_up@, quoted_down@),
{
    let mut res = owned(SUBSCRIBE_HEAD);
    res.append(quoted_up);
    res.append(SUBSCRIBE_SEPARATOR);
    res.append(quoted_down);
    res.append(SUBSCRIBE_TAIL);
    res
}

/// The JSON message that subscribes the market channel to the Up and Down
/// tokens.
pub fn subscribe_message(up_token: &str, down_token: &str) -> (res: String)
    ensures
        res@ == spec_subscribe_payload(json_quoted(up_token@), json_quoted(down_token@)),
{
    let quoted_up = match quote_json_string(up_token) {
        Ok(q) => q,
        Err(_) => {
            proof {
                assert(false);
            }
            String::new()
        },
    };
    let quoted_down = match quote_json_string(down_token) {
        Ok(q) => q,
        Err(_) => {
            proof {
                assert(false);
            }
            String::new()
        },
    };
    subscribe_payload(quoted_up.as_str(), quoted_down.as_str())
}

} // verus!

verus! {

/// A window's slug is the market prefix, the separator, and then digits
/// that read back as the window start itself, for every start.
pub proof fn lemma_window_slug_names_the_window(window_start: nat)
    ensures
        ({
            let slug = spec_window_slug(window_start);
            let head = MARKET_SLUG@ + SLUG_SEPARATOR@;
            &&& slug.len() > head.len()
            &&& slug.subrange(0, head.len() as int) == head
            &&& crate::decimal::decimal_value(slug.skip(head.len() as int)) == window_start
            &&& crate::decimal::all_digits(slug.skip(head.len() as int))
        }),
{
    crate::decimal::lemma_decimal_text_round_trip(window_start);
    let head = MARKET_SLUG@ + SLUG_SEPARATOR@;
    let slug = spec_window_slug(window_start);
    assert(slug.subrange(0, head.len() as int) =~= head);
    assert(slug.skip(head.len() as int) =~= decimal_text(window_start));
}

/// The events URL for a window's decimal start asks for that window's slug:
/// it is the host and query followed by exactly the window's slug.
pub proof fn lemma_event_url_asks_for_the_window(window_start: nat)
    ensures
        spec_event_url(decimal_text(window_start)) == BASE_URL@ + EVENTS_QUERY@ + spec_window_slug(
            window_start,
        ),
        spec_event_url(decimal_text(window_start)).skip((BASE_URL@ + EVENTS_QUERY@).len() as int)
            == spec_window_slug(window_start),
{
    let url = spec_event_url(decimal_text(window_start));
    let prefix = BASE_URL@ + EVENTS_QUERY@;
    assert(url =~= prefix + spec_window_slug(window_start));
    assert(url.skip(prefix.len() as int) =~= spec_window_slug(window_start));
}

} // verus!
