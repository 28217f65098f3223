//! Engine base URL and the HTTP / WebSocket routes resolved against it.
use vstd::prelude::*;
use crate::text::str_eq;

verus! {

#[verifier::external_type_specification]
#[verifier::external_body]
pub struct ExUrlParseError(url::ParseError);

/// Serialization of `url::Url::parse(s)`, `None` when the text is not an absolute URL.
pub uninterp spec fn url_parse_text(s: Seq<char>) -> Option<Seq<char>>;

/// Serialization of `Url::join(input)` on the URL read back from `base`,
/// `None` when either step fails.
pub uninterp spec fn url_join_text(base: Seq<char>, input: Seq<char>) -> Option<Seq<char>>;

/// `Url::scheme` of the URL read back from `base` (empty when `base` does not parse).
pub uninterp spec fn url_scheme_text(base: Seq<char>) -> Seq<char>;

/// Serialization after `Url::set_scheme(scheme)` on the URL read back from `base`,
/// `None` when either step fails.
pub uninterp spec fn url_set_scheme_text(base: Seq<char>, scheme: Seq<char>) -> Option<Seq<char>>;

/// `url::Url::parse` of `s`, handed back as the URL's serialization (`Url::as_str`).
/// Claims only that the outcome is the named parse result of `s`.
#[verifier::external_body]
fn parse_url(s: &str) -> (r: Result<String, url::ParseError>)
    ensures
        match r {
            Ok(t) => url_parse_text(s@) == Some(t@),
            Err(_) => url_parse_text(s@) is None,
        },
{
    match url::Url::parse(s) {
        Ok(u) => Ok(u.as_str().to_string()),
        Err(e) => Err(e),
    }
}

/// Display text of a `url::ParseError` (the crate's fixed message for the variant).
/// Nothing is claimed of the text.
#[verifier::external_body]
fn parse_error_text(e: &url::ParseError) -> (r: String) {
    e.to_string()
}

/// `Url::join(input)` on the URL read back from `base`, as a serialization.
/// Claims only that the outcome is the named join result.
#[verifier::external_body]
fn join_url(base: &str, input: &str) -> (r: Option<String>)
    ensures
        match r {
            Some(t) => url_join_text(base@, input@) == Some(t@),
            None => url_join_text(base@, input@) is None,
        },
{
    match url::Url::parse(base) {
        Ok(u) => match u.join(input) {
            Ok(j) => Some(j.as_str().to_string()),
            Err(_) => None,
        },
        Err(_) => None,
    }
}

/// `Url::scheme` of the URL read back from `base`; claims it is the named scheme.
#[verifier::external_body]
fn url_scheme(base: &str) -> (r: String)
    ensures
        r@ == url_scheme_text(base@),
{
    match url::Url::parse(base) {
        Ok(u) => u.scheme().to_string(),
        Err(_) => String::new(),
    }
}

/// `Url::set_scheme(scheme)` on the URL read back from `base`, as a serialization.
/// Claims only that the outcome is the named result.
#[verifier::external_body]
fn set_url_scheme(base: &str, scheme: &str) -> (r: Option<String>)
    ensures
        match r {
            Some(t) => url_set_scheme_text(base@, scheme@) == Some(t@),
            None => url_set_scheme_text(base@, scheme@) is None,
        },
{
    match url::Url::parse(base) {
        Ok(mut u) => match u.set_scheme(scheme) {
            Ok(()) => Some(u.as_str().to_string()),
            Err(()) => None,
        },
        Err(_) => None,
    }
}

/// Why an engine URL was refused.
#[derive(Debug, Clone, PartialEq, Eq)]
pub enum EndpointError {
    /// Not an absolute URL; the URL parser's message.
    InvalidUrl(String),
}

/// WebSocket scheme for an HTTP scheme: `wss` for `https`, else `ws`.
pub open spec fn ws_scheme_for(scheme: Seq<char>) -> Seq<char> {
    if scheme == "https"@ {
        "wss"@
    } else {
        "ws"@
    }
}

/// `base` with its scheme switched to the WebSocket one.
pub open spec fn ws_base(base: Seq<char>) -> Option<Seq<char>> {
    url_set_scheme_text(base, ws_scheme_for(url_scheme_text(base)))
}

/// Every engine route resolves against `base`.
pub open spec fn routes_resolve(base: Seq<char>) -> bool {
    &&& url_join_text(base, "/v1/snapshot"@) is Some
    &&& url_join_text(base, "/v1/chart/interest"@) is Some
    &&& url_join_text(base, "/v1/chart/type-styles"@) is Some
    &&& url_join_text(base, "/v1/workspace"@) is Some
    &&& url_join_text(base, "/v1/watchlist/active"@) is Some
    &&& url_join_text(base, "/v1/watchlist/add"@) is Some
    &&& url_join_text(base, "/v1/watchlist/remove"@) is Some
    &&& url_join_text(base, "/v1/watchlist/rename"@) is Some
    &&& url_join_text(base, "/v1/indicators"@) is Some
    &&& url_join_text(base, "/v1/paper/orders"@) is Some
    &&& url_join_text(base, "/v1/paper/orders/modify"@) is Some
    &&& url_join_text(base, "/v1/paper/orders/cancel"@) is Some
    &&& url_join_text(base, "/v1/paper/positions/close"@) is Some
    &&& url_join_text(base, "/v1/paper/positions/bracket"@) is Some
    &&& url_join_text(base, "/v1/paper/trade-marks/visibility"@) is Some
    &&& ws_base(base) is Some
    &&& url_join_text(ws_base(base).unwrap(), "/v1/ws"@) is Some
}

/// Every engine route of one endpoint, resolved.
#[derive(Debug, Clone)]
pub struct EngineRoutes {
    pub snapshot: String,
    pub chart_interest: String,
    pub chart_type_styles: String,
    pub workspace: String,
    pub watchlist_active: String,
    pub watchlist_add: String,
    pub watchlist_remove: String,
    pub watchlist_rename: String,
    pub indicators: String,
    pub paper_orders: String,
    pub paper_orders_modify: String,
    pub paper_orders_cancel: String,
    pub paper_positions_close: String,
    pub paper_positions_bracket: String,
    pub paper_trade_mark_visibility: String,
    pub ws: String,
}

/// Engine base URL, e.g. `http://127.0.0.1:8765`, held as its serialization.
#[derive(Debug)]
pub struct EngineEndpoint {
    base: String,
}

impl Clone for EngineEndpoint {
    fn clone(&self) -> (r: Self)
        ensures
            r@ == self@,
    {
        EngineEndpoint { base: self.base.clone() }
    }
}

impl View for EngineEndpoint {
    type V = Seq<char>;

    closed spec fn view(&self) -> Seq<char> {
        self.base@
    }
}

/// Whether `path` resolves against `base`.
fn resolves(base: &str, path: &str) -> (b: bool)
    ensures
        b == url_join_text(base@, path@) is Some,
{
    join_url(base, path).is_some()
}

impl EngineEndpoint {
    /// Parse an engine base URL. Refused only when the text is not an absolute URL; whether
    /// the engine routes resolve against it is for `routable` to tell.
    pub fn parse(s: &str) -> (r: Result<EngineEndpoint, EndpointError>)
        ensures
            match r {
                Ok(e) => url_parse_text(s@) == Some(e@),
                Err(EndpointError::InvalidUrl(_)) => url_parse_text(s@) is None,
            },
    {
        match parse_url(s) {
            Ok(base) => Ok(EngineEndpoint { base }),
            Err(e) => Err(EndpointError::InvalidUrl(parse_error_text(&e))),
        }
    }

    /// Whether every engine route, the WebSocket one included, resolves against the base
    /// (a `mailto:` URL, which cannot be a base, is not routable).
    pub fn routable(&self) -> (b: bool)
        ensures
            b == routes_resolve(self@),
    {
        let b = self.base.as_str();
        let ok = resolves(b, "/v1/snapshot") && resolves(b, "/v1/chart/interest") && resolves(
            b,
            "/v1/chart/type-styles",
        ) && resolves(b, "/v1/workspace") && resolves(b, "/v1/watchlist/active") && resolves(
            b,
            "/v1/watchlist/add",
        ) && resolves(b, "/v1/watchlist/remove") && resolves(b, "/v1/watchlist/rename")
            && resolves(b, "/v1/indicators") && resolves(b, "/v1/paper/orders") && resolves(
            b,
            "/v1/paper/orders/modify",
        ) && resolves(b, "/v1/paper/orders/cancel") && resolves(b, "/v1/paper/positions/close")
            && resolves(b, "/v1/paper/positions/bracket") && resolves(
            b,
            "/v1/paper/trade-marks/visibility",
        );
        if !ok {
            return false;
        }
        match Self::ws_base_of(b) {
            Some(w) => resolves(w.as_str(), "/v1/ws"),
            None => false,
        }
    }

    /// Every route resolved against the base, or `None` when one of them does not resolve
    /// (see `routable`).
    pub fn routes(&self) -> (r: Option<EngineRoutes>)
        ensures
            r is Some <==> routes_resolve(self@),
            r matches Some(t) ==> url_join_text(self@, "/v1/snapshot"@) == Some(t.snapshot@),
            r matches Some(t) ==> url_join_text(self@, "/v1/chart/interest"@) == Some(t.chart_interest@),
            r matches Some(t) ==> url_join_text(self@, "/v1/chart/type-styles"@) == Some(t.chart_type_styles@),
            r matches Some(t) ==> url_join_text(self@, "/v1/workspace"@) == Some(t.workspace@),
            r matches Some(t) ==> url_join_text(self@, "/v1/watchlist/active"@) == Some(t.watchlist_active@),
            r matches Some(t) ==> url_join_text(self@, "/v1/watchlist/add"@) == Some(t.watchlist_add@),
            r matches Some(t) ==> url_join_text(self@, "/v1/watchlist/remove"@) == Some(t.watchlist_remove@),
            r matches Some(t) ==> url_join_text(self@, "/v1/watchlist/rename"@) == Some(t.watchlist_rename@),
            r matches Some(t) ==> url_join_text(self@, "/v1/indicators"@) == Some(t.indicators@),
            r matches Some(t) ==> url_join_text(self@, "/v1/paper/orders"@) == Some(t.paper_orders@),
            r matches Some(t) ==> url_join_text(self@, "/v1/paper/orders/modify"@) == Some(t.paper_orders_modify@),
            r matches Some(t) ==> url_join_text(self@, "/v1/paper/orders/cancel"@) == Some(t.paper_orders_cancel@),
            r matches Some(t) ==> url_join_text(self@, "/v1/paper/positions/close"@) == Some(t.paper_positions_close@),
            r matches Some(t) ==> url_join_text(self@, "/v1/paper/positions/bracket"@) == Some(t.paper_positions_bracket@),
            r matches Some(t) ==> url_join_text(self@, "/v1/paper/trade-marks/visibility"@) == Some(t.paper_trade_mark_visibility@),
            r matches Some(t) ==> url_join_text(ws_base(self@).unwrap(), "/v1/ws"@) == Some(t.ws@),
    {
        if !self.routable() {
            return None;
        }
        Some(EngineRoutes {
                snapshot: self.snapshot_url(),
                chart_interest: self.chart_interest_url(),
                chart_type_styles: self.chart_type_styles_url(),
                workspace: self.workspace_url(),
                watchlist_active: self.watchlist_active_url(),
                watchlist_add: self.watchlist_add_url(),
                watchlist_remove: self.watchlist_remove_url(),
                watchlist_rename: self.watchlist_rename_url(),
                indicators: self.indicators_url(),
                paper_orders: self.paper_orders_url(),
                paper_orders_modify: self.paper_orders_modify_url(),
                paper_orders_cancel: self.paper_orders_cancel_url(),
                paper_positions_close: self.paper_positions_close_url(),
                paper_positions_bracket: self.paper_positions_bracket_url(),
                paper_trade_mark_visibility: self.paper_trade_mark_visibility_url(),
                ws: self.ws_url(),
        })
    }

    /// `base` with the WebSocket scheme for its current scheme.
    fn ws_base_of(base: &str) -> (r: Option<String>)
        ensures
            match r {
                Some(t) => ws_base(base@) == Some(t@),
                None => ws_base(base@) is None,
            },
    {
        let scheme = url_scheme(base);
        if str_eq(scheme.as_str(), "https") {
            proof {
                reveal_strlit("https");
            }
            set_url_scheme(base, "wss")
        } else {
            set_url_scheme(base, "ws")
        }
    }

    /// The base URL's serialization.
    pub fn base(&self) -> (r: &str)
        ensures
            r@ == self@,
    {
        self.base.as_str()
    }

    /// `path` resolved against the base.
    fn route(&self, path: &str) -> (r: String)
        requires
            url_join_text(self@, path@) is Some,
        ensures
            url_join_text(self@, path@) == Some(r@),
    {
        join_url(self.base.as_str(), path).unwrap()
    }

    pub fn snapshot_url(&self) -> (r: String)
        requires
            url_join_text(self@, "/v1/snapshot"@) is Some,
        ensures
            url_join_text(self@, "/v1/snapshot"@) == Some(r@),
    {
        self.route("/v1/snapshot")
    }

    pub fn chart_interest_url(&self) -> (r: String)
        requires
            url_join_text(self@, "/v1/chart/interest"@) is Some,
        ensures
            url_join_text(self@, "/v1/chart/interest"@) == Some(r@),
    {
        self.route("/v1/chart/interest")
    }

    pub fn chart_type_styles_url(&self) -> (r: String)
        requires
            url_join_text(self@, "/v1/chart/type-styles"@) is Some,
        ensures
            url_join_text(self@, "/v1/chart/type-styles"@) == Some(r@),
    {
        self.route("/v1/chart/type-styles")
    }

    pub fn workspace_url(&self) -> (r: String)
        requires
            url_join_text(self@, "/v1/workspace"@) is Some,
        ensures
            url_join_text(self@, "/v1/workspace"@) == Some(r@),
    {
        self.route("/v1/workspace")
    }

    pub fn watchlist_active_url(&self) -> (r: String)
        requires
            url_join_text(self@, "/v1/watchlist/active"@) is Some,
        ensures
            url_join_text(self@, "/v1/watchlist/active"@) == Some(r@),
    {
        self.route("/v1/watchlist/active")
    }

    pub fn watchlist_add_url(&self) -> (r: String)
        requires
            url_join_text(self@, "/v1/watchlist/add"@) is Some,
        ensures
            url_join_text(self@, "/v1/watchlist/add"@) == Some(r@),
    {
        self.route("/v1/watchlist/add")
    }

    pub fn watchlist_remove_url(&self) -> (r: String)
        requires
            url_join_text(self@, "/v1/watchlist/remove"@) is Some,
        ensures
            url_join_text(self@, "/v1/watchlist/remove"@) == Some(r@),
    {
        self.route("/v1/watchlist/remove")
    }

    pub fn watchlist_rename_url(&self) -> (r: String)
        requires
            url_join_text(self@, "/v1/watchlist/rename"@) is Some,
        ensures
            url_join_text(self@, "/v1/watchlist/rename"@) == Some(r@),
    {
        self.route("/v1/watchlist/rename")
    }

    pub fn indicators_url(&self) -> (r: String)
        requires
            url_join_text(self@, "/v1/indicators"@) is Some,
        ensures
            url_join_text(self@, "/v1/indicators"@) == Some(r@),
    {
        self.route("/v1/indicators")
    }

    pub fn paper_orders_url(&self) -> (r: String)
        requires
            url_join_text(self@, "/v1/paper/orders"@) is Some,
        ensures
            url_join_text(self@, "/v1/paper/orders"@) == Some(r@),
    {
        self.route("/v1/paper/orders")
    }

    pub fn paper_orders_modify_url(&self) -> (r: String)
        requires
            url_join_text(self@, "/v1/paper/orders/modify"@) is Some,
        ensures
            url_join_text(self@, "/v1/paper/orders/modify"@) == Some(r@),
    {
        self.route("/v1/paper/orders/modify")
    }

    pub fn paper_orders_cancel_url(&self) -> (r: String)
        requires
            url_join_text(self@, "/v1/paper/orders/cancel"@) is Some,
        ensures
            url_join_text(self@, "/v1/paper/orders/cancel"@) == Some(r@),
    {
        self.route("/v1/paper/orders/cancel")
    }

    pub fn paper_positions_close_url(&self) -> (r: String)
        requires
            url_join_text(self@, "/v1/paper/positions/close"@) is Some,
        ensures
            url_join_text(self@, "/v1/paper/positions/close"@) == Some(r@),
    {
        self.route("/v1/paper/positions/close")
    }

    pub fn paper_positions_bracket_url(&self) -> (r: String)
        requires
            url_join_text(self@, "/v1/paper/positions/bracket"@) is Some,
        ensures
            url_join_text(self@, "/v1/paper/positions/bracket"@) == Some(r@),
    {
        self.route("/v1/paper/positions/bracket")
    }

    pub fn paper_trade_mark_visibility_url(&self) -> (r: String)
        requires
            url_join_text(self@, "/v1/paper/trade-marks/visibility"@) is Some,
        ensures
            url_join_text(self@, "/v1/paper/trade-marks/visibility"@) == Some(r@),
    {
        self.route("/v1/paper/trade-marks/visibility")
    }

    /// WebSocket URL: the base with `ws` (`wss` for `https`) scheme, joined with `/v1/ws`.
    pub fn ws_url(&self) -> (r: String)
        requires
            ws_base(self@) is Some,
            url_join_text(ws_base(self@).unwrap(), "/v1/ws"@) is Some,
        ensures
            url_join_text(ws_base(self@).unwrap(), "/v1/ws"@) == Some(r@),
    {
        let ws = Self::ws_base_of(self.base.as_str()).unwrap();
        join_url(ws.as_str(), "/v1/ws").unwrap()
    }
}

/// The `detail` member of a JSON object body: the string itself when it is a JSON string,
/// else that member's JSON text; `None` when the body is not JSON or has no `detail`.
pub uninterp spec fn json_detail(body: Seq<char>) -> Option<Seq<char>>;

/// `serde_json::from_str::<Value>(body)`, then `Value::get("detail")`, rendered with
/// `Value::as_str` for a string and `Value::to_string` otherwise. Claims only that the outcome
/// is the named detail of `body`.
#[verifier::external_body]
fn detail_of(body: &str) -> (r: Option<String>)
    ensures
        match r {
            Some(t) => json_detail(body@) == Some(t@),
            None => json_detail(body@) is None,
        },
{
    match serde_json::from_str::<serde_json::Value>(body) {
        Ok(v) => match v.get("detail") {
            Some(serde_json::Value::String(s)) => Some(s.clone()),
            Some(d) => Some(d.to_string()),
            None => None,
        },
        Err(_) => None,
    }
}

/// Error text for a refused indicator apply: `"{status}: {detail}"`, the detail being the
/// body's JSON `detail` (so the trader sees the engine's reason) or else the raw body.
pub fn indicator_apply_error(status: &str, body: &str) -> (r: String)
    ensures
        r@ == status@ + ": "@ + match json_detail(body@) {
            Some(d) => d,
            None => body@,
        },
{
    let mut out = String::from_str(status);
    out.append(": ");
    match detail_of(body) {
        Some(d) => out.append(d.as_str()),
        None => out.append(body),
    }
    out
}

/// Error text for a refused paper call: the body's non-empty JSON `detail`, else the raw
/// body, else (empty body) the status.
pub fn paper_error_detail(status: &str, body: &str) -> (r: String)
    ensures
        r@ == match json_detail(body@) {
            Some(d) if d.len() > 0 => d,
            _ => if body@.len() > 0 {
                body@
            } else {
                status@
            },
        },
{
    match detail_of(body) {
        Some(d) => {
            if d.as_str().unicode_len() > 0 {
                return d;
            }
        },
        None => {},
    }
    if body.unicode_len() > 0 {
        String::from_str(body)
    } else {
        String::from_str(status)
    }
}

} // verus!
