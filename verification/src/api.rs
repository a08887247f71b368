//! The calls of the API as values: the options of a read and their
//! validation, the request that each call sends, and the shapes of the
//! responses.

use crate::decimal::{decimal, push_decimal};
use crate::errors::{outcome_view, Error, Kind, KindView};
use crate::item_time::{lemma_normalize_is_idempotent, normalize_item_time, normalized};
use crate::models::{FeedItem, FeedItemView, InputItem, InputItemView};
use crate::trim::{trim, trimmed};
use crate::X_AUTH_TOKEN_HEADER;
use vstd::prelude::*;
use vstd::string::*;

verus! {

/// The most items that one read may ask for.
pub const MAX_READ_ITEMS: usize = 50;

/// The most items that one read may ask for together with their content.
pub const MAX_READ_ITEMS_WITH_CONTENT: usize = 10;

/// The most items that one call may submit.
pub const MAX_ITEMS_PER_CALL: usize = 10;

/// The number of characters of a feed's identifier.
pub const FEED_ID_LEN: usize = 45;

/// The payload of a ping that succeeded.
#[derive(PartialEq, Eq, Clone, Debug)]
pub struct PingResponse {
    pub code: u16,
    pub message: String,
}

/// The payload of a submission that succeeded.
#[derive(PartialEq, Eq, Clone, Debug)]
pub struct NewInputItemsResponse {
    pub code: u16,
    pub feed_id: String,
    pub message: String,
}

/// The payload of a read that succeeded.
#[derive(PartialEq, Eq, Clone, Debug)]
pub struct ReadFeedItemsResponse {
    pub code: u16,
    pub feed_items: Vec<FeedItem>,
}

/// The mathematical content of a [`PingResponse`].
pub struct PingResponseView {
    pub code: u16,
    pub message: Seq<char>,
}

/// The mathematical content of a [`NewInputItemsResponse`].
pub struct NewInputItemsResponseView {
    pub code: u16,
    pub feed_id: Seq<char>,
    pub message: Seq<char>,
}

/// The mathematical content of a [`ReadFeedItemsResponse`].
pub struct ReadFeedItemsResponseView {
    pub code: u16,
    pub feed_items: Seq<FeedItemView>,
}

impl View for PingResponse {
    type V = PingResponseView;

    open spec fn view(&self) -> PingResponseView {
        PingResponseView { code: self.code, message: self.message@ }
    }
}

impl View for NewInputItemsResponse {
    type V = NewInputItemsResponseView;

    open spec fn view(&self) -> NewInputItemsResponseView {
        NewInputItemsResponseView {
            code: self.code,
            feed_id: self.feed_id@,
            message: self.message@,
        }
    }
}

impl View for ReadFeedItemsResponse {
    type V = ReadFeedItemsResponseView;

    open spec fn view(&self) -> ReadFeedItemsResponseView {
        ReadFeedItemsResponseView { code: self.code, feed_items: self.feed_items.deep_view() }
    }
}

/// Extra options for reading items.
///
/// Without `item_time_after` and `item_time_before` the latest items are
/// read. The two cannot be given together.
///
/// An item time is a unix epoch millisecond with an optional suffix of five
/// digits: `"1661564013555"`, `"1661564013555.00003"`, `"123456.789"`.
#[derive(PartialEq, Eq, Clone, Debug)]
pub struct ReadOptions {
    /// The number of items to return, from 1 to 50; no more than 10 where
    /// `include_item_content` is true.
    pub max_items: usize,
    /// Whether each item comes with its full content.
    pub include_item_content: bool,
    /// Only items after this item time are returned, the time itself not.
    pub item_time_after: Option<String>,
    /// Only items before this item time are returned, the time itself not.
    pub item_time_before: Option<String>,
}

/// The mathematical content of a [`ReadOptions`].
pub struct ReadOptionsView {
    pub max_items: usize,
    pub include_item_content: bool,
    pub item_time_after: Option<Seq<char>>,
    pub item_time_before: Option<Seq<char>>,
}

impl View for ReadOptions {
    type V = ReadOptionsView;

    open spec fn view(&self) -> ReadOptionsView {
        ReadOptionsView {
            max_items: self.max_items,
            include_item_content: self.include_item_content,
            item_time_after: self.item_time_after.deep_view(),
            item_time_before: self.item_time_before.deep_view(),
        }
    }
}

impl ReadOptionsView {
    /// The options of a read when none are given.
    pub open spec fn default_options() -> ReadOptionsView {
        ReadOptionsView {
            max_items: 10,
            include_item_content: false,
            item_time_after: None,
            item_time_before: None,
        }
    }

    /// Whether the options can be sent as they are: the number of items is
    /// within its limits, at most one bound is set, and a bound that is set
    /// is an item time in canonical form.
    pub open spec fn is_valid(self) -> bool {
        &&& 1 <= self.max_items <= MAX_READ_ITEMS
        &&& self.include_item_content ==> self.max_items <= MAX_READ_ITEMS_WITH_CONTENT
        &&& !(self.item_time_after is Some && self.item_time_before is Some)
        &&& is_canonical_bound(self.item_time_after)
        &&& is_canonical_bound(self.item_time_before)
    }
}

/// Whether a bound, where it is set, is its own normal form.
pub open spec fn is_canonical_bound(bound: Option<Seq<char>>) -> bool {
    bound matches Some(text) ==> normalized(text) == Ok::<Seq<char>, KindView>(text)
}

/// The refusal of more than ten items together with their content.
pub open spec fn content_limit_message(max_items: usize) -> Seq<char> {
    "`max_items` must be 1 to 10 when `include_item_content` is true, received "@ + decimal(
        max_items as nat,
    )
}

/// The refusal of a number of items that is not from 1 to 50.
pub open spec fn limit_message(max_items: usize) -> Seq<char> {
    "`max_items` must be 1 to 50, received "@ + decimal(max_items as nat)
}

/// The refusal of a lower and an upper bound at once.
pub open spec fn both_bounds_message() -> Seq<char> {
    "cannot simultaneously query with `item_time_after` and `item_time_before`"@
}

/// What normalizing a bound gives: nothing for no bound, the canonical form
/// of a bound that is an item time, and the refusal of one that is not.
pub open spec fn normalized_bound(bound: Option<Seq<char>>) -> Result<
    Option<Seq<char>>,
    KindView,
> {
    match bound {
        None => Ok(None),
        Some(text) => match normalized(text) {
            Ok(canonical) => Ok(Some(canonical)),
            Err(refusal) => Err(refusal),
        },
    }
}

/// What validating the options `given` gives. The checks come in a fixed
/// order and the first that fails decides: the limit of ten with content,
/// the limit of fifty, both bounds at once, the lower bound, the upper bound.
pub open spec fn validated(given: ReadOptionsView) -> Result<ReadOptionsView, KindView> {
    if given.include_item_content && !(1 <= given.max_items <= MAX_READ_ITEMS_WITH_CONTENT) {
        Err(KindView::IllegalParameter(content_limit_message(given.max_items)))
    } else if !(1 <= given.max_items <= MAX_READ_ITEMS) {
        Err(KindView::IllegalParameter(limit_message(given.max_items)))
    } else if given.item_time_after is Some && given.item_time_before is Some {
        Err(KindView::IllegalParameter(both_bounds_message()))
    } else {
        match normalized_bound(given.item_time_after) {
            Err(refusal) => Err(refusal),
            Ok(after) => match normalized_bound(given.item_time_before) {
                Err(refusal) => Err(refusal),
                Ok(before) => Ok(
                    ReadOptionsView {
                        max_items: given.max_items,
                        include_item_content: given.include_item_content,
                        item_time_after: after,
                        item_time_before: before,
                    },
                ),
            },
        }
    }
}

impl Default for ReadOptions {
    fn default() -> (options: Self)
        ensures
            options@ == ReadOptionsView::default_options(),
    {
        ReadOptions {
            max_items: 10,
            include_item_content: false,
            item_time_after: None,
            item_time_before: None,
        }
    }
}

/// Normalizes a bound of a read, where one is set.
fn normalize_bound(bound: &Option<String>) -> (r: Result<Option<String>, Error>)
    ensures
        match r {
            Ok(b) => normalized_bound(bound.deep_view()) == Ok::<Option<Seq<char>>, KindView>(
                b.deep_view(),
            ),
            Err(e) => normalized_bound(bound.deep_view()) == Err::<Option<Seq<char>>, KindView>(
                e@,
            ),
        },
{
    match bound {
        None => Ok(None),
        Some(text) => match normalize_item_time(text.as_str()) {
            Ok(canonical) => Ok(Some(canonical)),
            Err(e) => Err(e),
        },
    }
}

/// Checks the options of a read and returns them with their bound in
/// canonical form. The options given are left as they are.
pub fn validate_read_options(given: &ReadOptions) -> (r: Result<ReadOptions, Error>)
    ensures
        outcome_view(r) == validated(given@),
        r matches Ok(options) ==> options@.is_valid(),
{
    if given.include_item_content && (given.max_items < 1 || given.max_items
        > MAX_READ_ITEMS_WITH_CONTENT) {
        let mut msg = String::from_str(
            "`max_items` must be 1 to 10 when `include_item_content` is true, received ",
        );
        push_decimal(&mut msg, given.max_items as u64);
        return Err(Error { kind: Kind::IllegalParameter(msg) });
    }
    if given.max_items < 1 || given.max_items > MAX_READ_ITEMS {
        let mut msg = String::from_str("`max_items` must be 1 to 50, received ");
        push_decimal(&mut msg, given.max_items as u64);
        return Err(Error { kind: Kind::IllegalParameter(msg) });
    }
    if given.item_time_after.is_some() && given.item_time_before.is_some() {
        let msg = String::from_str(
            "cannot simultaneously query with `item_time_after` and `item_time_before`",
        );
        return Err(Error { kind: Kind::IllegalParameter(msg) });
    }
    let item_time_after = normalize_bound(&given.item_time_after)?;
    let item_time_before = normalize_bound(&given.item_time_before)?;
    proof {
        if let Some(text) = given.item_time_after.deep_view() {
            lemma_normalize_is_idempotent(text);
        }
        if let Some(text) = given.item_time_before.deep_view() {
            lemma_normalize_is_idempotent(text);
        }
    }
    Ok(
        ReadOptions {
            max_items: given.max_items,
            include_item_content: given.include_item_content,
            item_time_after,
            item_time_before,
        },
    )
}

/// Validating is idempotent: options that were validated are valid, and
/// validating them again returns them unchanged.
pub proof fn lemma_validated_is_valid(given: ReadOptionsView)
    requires
        validated(given) is Ok,
    ensures
        validated(given)->Ok_0.is_valid(),
        validated(validated(given)->Ok_0) == validated(given),
{
    if let Some(text) = given.item_time_after {
        lemma_normalize_is_idempotent(text);
    }
    if let Some(text) = given.item_time_before {
        lemma_normalize_is_idempotent(text);
    }
}

/// How a request is sent.
#[derive(PartialEq, Eq, Clone, Copy, Debug)]
pub enum Method {
    Get,
    Post,
}

/// The body of a submission.
#[derive(PartialEq, Eq, Clone, Debug)]
pub struct NewItemsBody {
    pub items: Vec<InputItem>,
}

/// A call of the API, ready to be sent: where it goes, with which headers
/// and query parameters, and with which body.
#[derive(PartialEq, Eq, Clone, Debug)]
pub struct ApiRequest {
    pub method: Method,
    pub url: String,
    pub headers: Vec<(String, String)>,
    pub query: Vec<(String, String)>,
    pub body: Option<NewItemsBody>,
}

/// The mathematical content of an [`ApiRequest`].
pub struct ApiRequestView {
    pub method: Method,
    pub url: Seq<char>,
    pub headers: Seq<(Seq<char>, Seq<char>)>,
    pub query: Seq<(Seq<char>, Seq<char>)>,
    pub body: Option<Seq<InputItemView>>,
}

impl View for NewItemsBody {
    type V = Seq<InputItemView>;

    open spec fn view(&self) -> Seq<InputItemView> {
        self.items.deep_view()
    }
}

impl View for ApiRequest {
    type V = ApiRequestView;

    open spec fn view(&self) -> ApiRequestView {
        ApiRequestView {
            method: self.method,
            url: self.url@,
            headers: self.headers.deep_view(),
            query: self.query.deep_view(),
            body: match self.body {
                Some(body) => Some(body@),
                None => None,
            },
        }
    }
}

/// The headers of every call: the token, under the name that the service
/// reads it from.
pub open spec fn auth_headers(token: Seq<char>) -> Seq<(Seq<char>, Seq<char>)> {
    seq![(X_AUTH_TOKEN_HEADER@, token)]
}

/// The request of a ping: a `GET` of `ping/` under the base URL.
pub open spec fn ping_request_view(base_url: Seq<char>, token: Seq<char>) -> ApiRequestView {
    ApiRequestView {
        method: Method::Get,
        url: base_url + "ping/"@,
        headers: auth_headers(token),
        query: Seq::empty(),
        body: None,
    }
}

/// The refusal of more items than go into one call.
pub open spec fn too_many_items_message(count: nat) -> Seq<char> {
    "too many items ("@ + decimal(count)
        + "). See chunking example (new_items_all) to send 10 at a time."@
}

/// The request that submits `items`: a `POST` of the items to `items/` under
/// the base URL, or the refusal of more than ten items.
pub open spec fn new_items_request_view(
    items: Seq<InputItemView>,
    base_url: Seq<char>,
    token: Seq<char>,
) -> Result<ApiRequestView, KindView> {
    if items.len() > MAX_ITEMS_PER_CALL {
        Err(KindView::IllegalParameter(too_many_items_message(items.len())))
    } else {
        Ok(
            ApiRequestView {
                method: Method::Post,
                url: base_url + "items/"@,
                headers: auth_headers(token),
                query: Seq::empty(),
                body: Some(items),
            },
        )
    }
}

/// The query parameters of a read: the number of items, whether their
/// content is wanted, then the bound that is set, if any.
pub open spec fn read_query(options: ReadOptionsView) -> Seq<(Seq<char>, Seq<char>)> {
    let fixed = seq![
        ("max_items"@, decimal(options.max_items as nat)),
        (
            "include_item_content"@,
            if options.include_item_content {
                "true"@
            } else {
                "false"@
            },
        ),
    ];
    let after = match options.item_time_after {
        Some(text) => seq![("item_time_after"@, text)],
        None => Seq::empty(),
    };
    let before = match options.item_time_before {
        Some(text) => seq![("item_time_before"@, text)],
        None => Seq::empty(),
    };
    fixed + after + before
}

/// The refusal of a feed identifier of the wrong length.
pub open spec fn feed_id_message(feed_id: Seq<char>) -> Seq<char> {
    "`feed_id` is expected to be 45 characters ('"@ + feed_id + "')"@
}

/// The request that reads from the feed `feed_id`: a `GET` of the feed under
/// the base URL with the validated options as its query. A feed identifier
/// that is not 45 characters long without the whitespace around it is
/// refused first, then options that are not valid.
pub open spec fn read_items_request_view(
    feed_id: Seq<char>,
    options: Option<ReadOptionsView>,
    base_url: Seq<char>,
    token: Seq<char>,
) -> Result<ApiRequestView, KindView> {
    if trimmed(feed_id).len() != FEED_ID_LEN {
        Err(KindView::IllegalParameter(feed_id_message(feed_id)))
    } else {
        let checked = match options {
            None => Ok(ReadOptionsView::default_options()),
            Some(given) => validated(given),
        };
        match checked {
            Err(refusal) => Err(refusal),
            Ok(valid) => Ok(
                ApiRequestView {
                    method: Method::Get,
                    url: base_url + "feeds/"@ + trimmed(feed_id) + "/"@,
                    headers: auth_headers(token),
                    query: read_query(valid),
                    body: None,
                },
            ),
        }
    }
}

/// The headers that carry `token`.
fn headers_with_token(token: &str) -> (headers: Vec<(String, String)>)
    ensures
        headers.deep_view() == auth_headers(token@),
{
    let mut headers: Vec<(String, String)> = Vec::new();
    headers.push((String::from_str(X_AUTH_TOKEN_HEADER), String::from_str(token)));
    headers
}

/// The request that tests the configuration and the token.
pub fn ping_request(base_url: &str, token: &str) -> (request: ApiRequest)
    ensures
        request@ == ping_request_view(base_url@, token@),
{
    let mut url = String::from_str(base_url);
    url.append("ping/");
    let query: Vec<(String, String)> = Vec::new();
    assert(query.deep_view() =~= Seq::empty());
    ApiRequest { method: Method::Get, url, headers: headers_with_token(token), query, body: None }
}

/// The request that adds `items` to the feed of the token. At most ten
/// items go into one call; none at all is allowed.
pub fn new_items_request(items: &[InputItem], base_url: &str, token: &str) -> (r: Result<
    ApiRequest,
    Error,
>)
    ensures
        outcome_view(r) == new_items_request_view(items.deep_view(), base_url@, token@),
{
    if items.len() > MAX_ITEMS_PER_CALL {
        let mut msg = String::from_str("too many items (");
        push_decimal(&mut msg, items.len() as u64);
        msg.append("). See chunking example (new_items_all) to send 10 at a time.");
        return Err(Error { kind: Kind::IllegalParameter(msg) });
    }
    let mut copies: Vec<InputItem> = Vec::new();
    let mut i: usize = 0;
    while i < items.len()
        invariant
            i <= items.len(),
            copies.len() == i,
            forall|k: int| 0 <= k < i ==> copies@[k]@ == items@[k]@,
        decreases items.len() - i,
    {
        copies.push(items[i].clone());
        i += 1;
    }
    assert(copies.deep_view() =~= items.deep_view());
    let mut url = String::from_str(base_url);
    url.append("items/");
    let query: Vec<(String, String)> = Vec::new();
    assert(query.deep_view() =~= Seq::empty());
    Ok(
        ApiRequest {
            method: Method::Post,
            url,
            headers: headers_with_token(token),
            query,
            body: Some(NewItemsBody { items: copies }),
        },
    )
}

/// The query parameters of a read with the options `options`.
fn query_of(options: ReadOptions) -> (query: Vec<(String, String)>)
    ensures
        query.deep_view() == read_query(options@),
{
    let mut max_items = String::new();
    push_decimal(&mut max_items, options.max_items as u64);
    let with_content = if options.include_item_content {
        String::from_str("true")
    } else {
        String::from_str("false")
    };
    let mut query: Vec<(String, String)> = Vec::new();
    query.push((String::from_str("max_items"), max_items));
    query.push((String::from_str("include_item_content"), with_content));
    if let Some(item_time_after) = options.item_time_after {
        query.push((String::from_str("item_time_after"), item_time_after));
    }
    if let Some(item_time_before) = options.item_time_before {
        query.push((String::from_str("item_time_before"), item_time_before));
    }
    query
}

/// The request that reads items from the feed `feed_id`, with the options
/// given or, without any, the ten latest items without their content.
pub fn read_items_request(
    feed_id: &str,
    read_options: Option<&ReadOptions>,
    base_url: &str,
    token: &str,
) -> (r: Result<ApiRequest, Error>)
    ensures
        outcome_view(r) == read_items_request_view(
            feed_id@,
            match read_options {
                Some(given) => Some(given@),
                None => None,
            },
            base_url@,
            token@,
        ),
{
    let feed_id_str = trim(feed_id);
    if feed_id_str.unicode_len() != FEED_ID_LEN {
        let mut msg = String::from_str("`feed_id` is expected to be 45 characters ('");
        msg.append(feed_id);
        msg.append("')");
        return Err(Error { kind: Kind::IllegalParameter(msg) });
    }
    let valid = match read_options {
        None => ReadOptions::default(),
        Some(given) => validate_read_options(given)?,
    };
    let mut url = String::from_str(base_url);
    url.append("feeds/");
    url.append(feed_id_str);
    url.append("/");
    Ok(
        ApiRequest {
            method: Method::Get,
            url,
            headers: headers_with_token(token),
            query: query_of(valid),
            body: None,
        },
    )
}

/// The calls of the API, as a client offers them.
pub trait YupdatesV0 {
    /// Adds items to a feed, with a token of that feed. Up to ten go into
    /// one call; see [`YupdatesV0::new_items_all`] for more. Sending no item
    /// is allowed: it tests the token and returns the feed's identifier.
    fn new_items(&self, items: &[InputItem]) -> Result<NewInputItemsResponse, Error>;

    /// Adds any number of items to a feed, ten at a time, pausing for
    /// `sleep_ms` milliseconds between the calls; the pause must be five
    /// milliseconds or more. Returns the feed's identifier.
    fn new_items_all(&self, items: &[InputItem], sleep_ms: u64) -> Result<String, Error>;

    /// Tests the configuration and the token.
    fn ping(&self) -> Result<PingResponse, Error>;

    /// Whether [`YupdatesV0::ping`] succeeds.
    fn ping_bool(&self) -> bool;

    /// Reads the ten latest items of a feed, without their content.
    fn read_items(&self, feed_id: &str) -> Result<Vec<FeedItem>, Error>;

    /// Reads items of a feed as the options say.
    fn read_items_with_options(&self, feed_id: &str, options: &ReadOptions) -> Result<
        Vec<FeedItem>,
        Error,
    >;
}

} // verus!
