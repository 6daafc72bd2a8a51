//! The decisions that an RPC server makes before and while it serves:
//! payload limits, the hosts and origins it admits, which calls it rate
//! limits, and what it reports about itself.

use crate::text::{decimal, push_decimal};
use http::header::HeaderValue;
use vstd::prelude::*;
use vstd::seq_lib::{to_multiset_build, to_multiset_insert};
use vstd::string::{StrSliceExecFns, StringExecFns};

verus! {

/// Bytes in a megabyte.
pub const MEGABYTE: u32 = 1024 * 1024;

/// Seconds between two pings on a websocket connection.
pub const PING_INTERVAL_SECS: u64 = 30;

/// Seconds without traffic after which a websocket connection counts as
/// inactive.
pub const INACTIVE_LIMIT_SECS: u64 = 60;

/// Missed pings after which a websocket connection is closed.
pub const MAX_PING_FAILURES: usize = 3;

/// Length of the subscription identifiers that the server makes up when it
/// is given no provider of its own.
pub const DEFAULT_ID_LENGTH: usize = 16;

/// The payload limit in bytes for a limit given in megabytes: their
/// product, or the largest `u32` where the product is larger.
pub open spec fn payload_bytes(megabytes: u32) -> u32 {
    if megabytes * MEGABYTE <= u32::MAX {
        (megabytes * MEGABYTE) as u32
    } else {
        u32::MAX
    }
}

/// The payload limit in bytes for a limit given in megabytes.
pub fn payload_limit(megabytes: u32) -> (bytes: u32)
    ensures
        bytes == payload_bytes(megabytes),
{
    if megabytes > u32::MAX / MEGABYTE {
        u32::MAX
    } else {
        megabytes * MEGABYTE
    }
}

/// The port as it stands in a host filter: its decimal digits, or `*` for
/// any port where the listening address is not known.
pub open spec fn port_text(port: Option<u16>) -> Seq<char> {
    match port {
        Some(p) => decimal(p as nat),
        None => "*"@,
    }
}

/// The hosts that a request may name when host filtering is on: the three
/// names of the local machine, each with the listening port.
pub open spec fn local_hosts(port: Option<u16>) -> Seq<Seq<char>> {
    seq![
        "localhost:"@ + port_text(port),
        "127.0.0.1:"@ + port_text(port),
        "[::1]:"@ + port_text(port),
    ]
}

/// `name`, a colon, and the port.
fn host_with_port(name: &str, port: Option<u16>) -> (host: String)
    ensures
        host@ == name@ + ":"@ + port_text(port),
{
    let mut host: String = String::from_str(name);
    host.append(":");
    match port {
        Some(p) => {
            push_decimal(&mut host, p as u64);
        },
        None => {
            host.append("*");
        },
    }
    host
}

/// The host filter: `None` where filtering is off, and otherwise the three
/// local names with the port of the listening address, or with `*` where
/// that address could not be had.
pub fn hosts_filtering(enabled: bool, port: Option<u16>) -> (hosts: Option<Vec<String>>)
    ensures
        !enabled ==> hosts.is_none(),
        enabled ==> hosts.is_some() && hosts.unwrap().deep_view() == local_hosts(port),
{
    if !enabled {
        return None;
    }
    let mut hosts: Vec<String> = Vec::new();
    hosts.push(host_with_port("localhost", port));
    hosts.push(host_with_port("127.0.0.1", port));
    hosts.push(host_with_port("[::1]", port));
    proof {
        reveal_strlit("localhost");
        reveal_strlit("localhost:");
        reveal_strlit("127.0.0.1");
        reveal_strlit("127.0.0.1:");
        reveal_strlit("[::1]");
        reveal_strlit("[::1]:");
        reveal_strlit(":");
        assert("localhost"@ + ":"@ =~= "localhost:"@);
        assert("127.0.0.1"@ + ":"@ =~= "127.0.0.1:"@);
        assert("[::1]"@ + ":"@ =~= "[::1]:"@);
        assert(hosts.deep_view() =~= local_hosts(port));
    }
    Some(hosts)
}

/// Index of the first colon in `host` at or after `from`, or the length of
/// `host` if there is none.
pub open spec fn first_colon(host: Seq<char>, from: int) -> int
    decreases host.len() - from,
{
    if from < 0 || from >= host.len() {
        host.len() as int
    } else if host[from] == ':' {
        from
    } else {
        first_colon(host, from + 1)
    }
}

/// A host without its port: what stands before the first colon, or all of
/// it where there is no colon.
pub open spec fn before_port(host: Seq<char>) -> Seq<char> {
    host.subrange(0, first_colon(host, 0))
}

/// The host name to look up for an entry that may carry a port, such as
/// `hostname:8080`.
pub fn host_without_port(host: &str) -> (name: String)
    ensures
        name@ == before_port(host@),
{
    let len: usize = host.unicode_len();
    let mut i: usize = 0;
    while i < len && host.get_char(i) != ':'
        invariant
            i <= len,
            len == host@.len(),
            first_colon(host@, i as int) == first_colon(host@, 0),
        decreases len - i,
    {
        i += 1;
    }
    String::from_str(host.substring_char(0, i))
}

/// Whether a character may stand in a header value: a tab, or anything
/// from the space on but for the delete character.
pub open spec fn header_char_ok(c: char) -> bool {
    c == '\t' || (c as u32 >= 32 && c as u32 != 127)
}

/// Whether a text can be a header value: each of its characters may stand
/// in one.
pub open spec fn header_text_ok(text: Seq<char>) -> bool {
    forall|i: int| 0 <= i < text.len() ==> header_char_ok(#[trigger] text[i])
}

/// `http`'s `HeaderValue::from_str` succeeds exactly on the texts whose
/// bytes are all a tab or at least 32 and not 127. Every byte of a
/// character beyond ASCII is above 127, so this is a condition on the
/// characters.
#[verifier::external_body]
fn is_header_value(text: &str) -> (ok: bool)
    ensures
        ok == header_text_ok(text@),
{
    HeaderValue::from_str(text).is_ok()
}

/// Which origins a server answers with permission.
#[derive(Debug)]
pub enum CorsPolicy {
    /// Every origin.
    Permissive,
    /// The origins in the list, and no other.
    List(Vec<String>),
}

/// An origin that cannot be a header value.
#[derive(Debug, Clone, Copy, PartialEq, Eq, Structural)]
pub struct InvalidOrigin {
    /// Where the origin stands in the list that was given.
    pub index: usize,
}

/// Index of the first origin at or after `from` that cannot be a header
/// value, or the number of origins if each of them can.
pub open spec fn first_bad_origin(origins: Seq<Seq<char>>, from: int) -> int
    decreases origins.len() - from,
{
    if from < 0 || from >= origins.len() {
        origins.len() as int
    } else if !header_text_ok(origins[from]) {
        from
    } else {
        first_bad_origin(origins, from + 1)
    }
}

/// Turns the configured origins into a policy. No list at all allows every
/// origin. A list allows its origins, if each of them can be a header
/// value; the first that cannot is reported.
pub fn try_into_cors(maybe_cors: Option<&Vec<String>>) -> (res: Result<CorsPolicy, InvalidOrigin>)
    ensures
        maybe_cors.is_none() ==> res.is_ok() && (res.unwrap() is Permissive),
        maybe_cors.is_some() ==> ({
            let origins = maybe_cors.unwrap().deep_view();
            let bad = first_bad_origin(origins, 0);
            &&& bad == origins.len() ==> res.is_ok() && (res.unwrap() is List)
                && res.unwrap()->List_0.deep_view() == origins
            &&& bad < origins.len() ==> res.is_err() && res.unwrap_err().index == bad
        }),
{
    match maybe_cors {
        None => Ok(CorsPolicy::Permissive),
        Some(cors) => {
            let mut list: Vec<String> = Vec::new();
            let mut i: usize = 0;
            while i < cors.len()
                invariant
                    maybe_cors == Some(cors),
                    i <= cors@.len(),
                    list@.len() == i,
                    first_bad_origin(cors.deep_view(), i as int) == first_bad_origin(
                        cors.deep_view(),
                        0,
                    ),
                    list.deep_view() == cors.deep_view().subrange(0, i as int),
                decreases cors@.len() - i,
            {
                assert(cors.deep_view()[i as int] == cors@[i as int]@);
                if !is_header_value(cors[i].as_str()) {
                    return Err(InvalidOrigin { index: i });
                }
                let ghost before = list;
                list.push(cors[i].clone());
                assert forall|k: int| 0 <= k <= i implies list.deep_view()[k]
                    == cors.deep_view()[k] by {
                    if k < i {
                        assert(list@[k] == before@[k]);
                        assert(before.deep_view()[k] == cors.deep_view().subrange(0, i as int)[k]);
                    }
                }
                assert(list.deep_view() =~= cors.deep_view().subrange(0, i + 1));
                i += 1;
            }
            assert(cors.deep_view().subrange(0, i as int) =~= cors.deep_view());
            Ok(CorsPolicy::List(list))
        },
    }
}

/// What `Debug` formatting writes for a list of strings.
pub uninterp spec fn debug_text(items: Seq<Seq<char>>) -> Seq<char>;

/// `format!` with `{:?}` on a vector of strings: the text that `Debug`
/// writes for the list, which depends on the strings alone.
#[verifier::external_body]
fn debug_list(items: &Vec<String>) -> (text: String)
    ensures
        text@ == debug_text(items.deep_view()),
{
    format!("{:?}", items)
}

/// The allowed origins as they are reported: the list as `Debug` writes
/// it, or `["*"]` where every origin is allowed.
pub fn format_cors(maybe_cors: Option<&Vec<String>>) -> (text: String)
    ensures
        maybe_cors.is_some() ==> text@ == debug_text(maybe_cors.unwrap().deep_view()),
        maybe_cors.is_none() ==> text@ == "[\"*\"]"@,
{
    match maybe_cors {
        Some(cors) => debug_list(cors),
        None => String::from_str("[\"*\"]"),
    }
}

/// The label under which a connection's transport is counted.
pub fn transport_label(is_websocket: bool) -> (label: &'static str)
    ensures
        is_websocket ==> label@ == "ws"@,
        !is_websocket ==> label@ == "http"@,
{
    if is_websocket {
        "ws"
    } else {
        "http"
    }
}

/// An address as the rate limiter knows it.
#[derive(Debug, Clone, Copy, PartialEq, Eq, Structural)]
pub struct IpKey {
    /// Whether the address is an IPv6 address.
    pub v6: bool,
    /// The address's bits as one number.
    pub bits: u128,
}

/// Whether `ip` is one of `addrs`.
pub open spec fn listed(addrs: Seq<IpKey>, ip: IpKey) -> bool {
    exists|i: int| 0 <= i < addrs.len() && addrs[i] == ip
}

/// The rate limit for a call from `ip`: none for an address on the
/// whitelist, and the configured one for every other.
pub fn rate_limit_for(whitelist: &[IpKey], ip: IpKey, rate_limit: Option<u32>) -> (limit: Option<
    u32,
>)
    ensures
        listed(whitelist@, ip) ==> limit.is_none(),
        !listed(whitelist@, ip) ==> limit == rate_limit,
{
    let mut i: usize = 0;
    while i < whitelist.len()
        invariant
            i <= whitelist@.len(),
            forall|k: int| 0 <= k < i ==> whitelist@[k] != ip,
        decreases whitelist@.len() - i,
    {
        if whitelist[i] == ip {
            return None;
        }
        i += 1;
    }
    rate_limit
}

/// What the middleware of one connection does.
#[derive(Debug, Clone, Copy, PartialEq, Eq, Structural)]
pub struct MiddlewarePlan {
    /// Whether calls are counted.
    pub metrics: bool,
    /// The most calls per minute, if calls are limited.
    pub rate_limit: Option<u32>,
}

/// The middleware for a connection: none where there are neither metrics
/// nor a rate limit, and otherwise one that does what there is.
pub fn middleware_plan(metrics: bool, rate_limit: Option<u32>) -> (plan: Option<MiddlewarePlan>)
    ensures
        !metrics && rate_limit.is_none() ==> plan.is_none(),
        metrics || rate_limit.is_some() ==> plan == Some(MiddlewarePlan { metrics, rate_limit }),
{
    if !metrics && rate_limit.is_none() {
        None
    } else {
        Some(MiddlewarePlan { metrics, rate_limit })
    }
}

/// Whether `a` comes before `b` or is equal to it, character by
/// character, where a text comes before every text that it starts.
pub open spec fn text_le(a: Seq<char>, b: Seq<char>) -> bool
    decreases a.len(),
{
    if a.len() == 0 {
        true
    } else if b.len() == 0 {
        false
    } else if a[0] as u32 != b[0] as u32 {
        (a[0] as u32) < (b[0] as u32)
    } else {
        text_le(a.drop_first(), b.drop_first())
    }
}

/// Whether each text in the list comes before those after it, or is equal
/// to them.
pub open spec fn in_text_order(names: Seq<Seq<char>>) -> bool {
    forall|i: int, j: int| 0 <= i < j < names.len() ==> text_le(names[i], names[j])
}

/// Of two texts one comes before the other, or they are equal.
pub proof fn lemma_text_le_total(a: Seq<char>, b: Seq<char>)
    ensures
        text_le(a, b) || text_le(b, a),
    decreases a.len(),
{
    if a.len() > 0 && b.len() > 0 && a[0] as u32 == b[0] as u32 {
        lemma_text_le_total(a.drop_first(), b.drop_first());
    }
}

/// What comes before a text comes before everything that the text
/// comes before.
pub proof fn lemma_text_le_transitive(a: Seq<char>, b: Seq<char>, c: Seq<char>)
    requires
        text_le(a, b),
        text_le(b, c),
    ensures
        text_le(a, c),
    decreases a.len(),
{
    if a.len() > 0 && b.len() > 0 && c.len() > 0 && a[0] as u32 == b[0] as u32 && b[0] as u32
        == c[0] as u32 {
        lemma_text_le_transitive(a.drop_first(), b.drop_first(), c.drop_first());
    }
}

/// The order of `str`: strings are ordered by their bytes, which orders
/// them by the code points of their characters, and a string comes before
/// every string that it starts.
#[verifier::external_body]
fn str_le(a: &str, b: &str) -> (le: bool)
    ensures
        le == text_le(a@, b@),
{
    a <= b
}

/// Puts `item` into a list that is in order, at the place that keeps it so.
fn insert_in_order(list: &mut Vec<String>, item: String)
    requires
        in_text_order(old(list).deep_view()),
    ensures
        in_text_order(final(list).deep_view()),
        final(list).deep_view().to_multiset() == old(list).deep_view().to_multiset().insert(item@),
{
    let mut j: usize = 0;
    while j < list.len() && str_le(list[j].as_str(), item.as_str())
        invariant
            j <= list@.len(),
            list == old(list),
            forall|k: int| 0 <= k < j ==> text_le(#[trigger] list.deep_view()[k], item@),
        decreases list@.len() - j,
    {
        assert(list.deep_view()[j as int] == list@[j as int]@);
        j += 1;
    }
    let ghost before = list.deep_view();
    list.insert(j, item);
    proof {
        let after = list.deep_view();
        assert(after =~= before.insert(j as int, item@));
        to_multiset_insert(before, j as int, item@);
        assert forall|a: int, b: int| 0 <= a < b < after.len() implies text_le(
            after[a],
            after[b],
        ) by {
            if b == j {
                assert(after[a] == before[a]);
            } else if a == j {
                assert(after[b] == before[b - 1]);
                assert(before[j as int] == old(list)@[j as int]@);
                lemma_text_le_total(before[j as int], item@);
                if b - 1 > j {
                    lemma_text_le_transitive(item@, before[j as int], before[b - 1]);
                }
            } else {
                let a0 = if a < j {
                    a
                } else {
                    a - 1
                };
                let b0 = if b < j {
                    b
                } else {
                    b - 1
                };
                assert(after[a] == before[a0] && after[b] == before[b0]);
            }
        }
    }
}

/// The name under which a server reports its methods.
pub const RPC_METHODS: &'static str = "rpc_methods";

/// The methods that a server reports: those of its API and `rpc_methods`
/// itself, in order.
pub fn available_methods(names: &Vec<String>) -> (methods: Vec<String>)
    ensures
        in_text_order(methods.deep_view()),
        methods.deep_view().to_multiset() == names.deep_view().push(
            "rpc_methods"@,
        ).to_multiset(),
{
    let mut methods: Vec<String> = Vec::new();
    let mut i: usize = 0;
    assert(names.deep_view().subrange(0, 0).to_multiset() =~= methods.deep_view().to_multiset())
        by {
        assert(names.deep_view().subrange(0, 0) =~= methods.deep_view());
    }
    while i < names.len()
        invariant
            i <= names@.len(),
            in_text_order(methods.deep_view()),
            methods.deep_view().to_multiset() == names.deep_view().subrange(
                0,
                i as int,
            ).to_multiset(),
        decreases names@.len() - i,
    {
        proof {
            let upto = names.deep_view().subrange(0, i as int);
            assert(names.deep_view().subrange(0, i + 1) =~= upto.push(names@[i as int]@));
            to_multiset_build(upto, names@[i as int]@);
        }
        insert_in_order(&mut methods, names[i].clone());
        i += 1;
    }
    proof {
        assert(names.deep_view().subrange(0, i as int) =~= names.deep_view());
        to_multiset_build(names.deep_view(), "rpc_methods"@);
    }
    insert_in_order(&mut methods, String::from_str(RPC_METHODS));
    methods
}

/// RPC server configuration, as far as the server's decisions read it.
#[derive(Debug)]
pub struct Config {
    /// CORS: the origins to allow, or `None` to allow all.
    pub cors: Option<Vec<String>>,
    /// Maximum connections.
    pub max_connections: u32,
    /// Maximum subscriptions per connection.
    pub max_subs_per_conn: u32,
    /// Maximum rpc request payload size.
    pub max_payload_in_mb: u32,
    /// Maximum rpc response payload size.
    pub max_payload_out_mb: u32,
    /// Whether metrics are kept.
    pub metrics: bool,
    /// Message buffer size
    pub message_buffer_capacity: u32,
    /// Rate limit calls per minute.
    pub rate_limit: Option<u32>,
    /// Disable rate limit for hosts.
    pub rate_limit_whitelisted_hosts: Vec<String>,
}

/// What a server is built from, once its configuration is read.
#[derive(Debug)]
pub struct ServerPlan {
    /// The hosts that requests may name, or `None` for any.
    pub host_filter: Option<Vec<String>>,
    /// The origins that are answered with permission.
    pub cors: CorsPolicy,
    /// The largest request body, in bytes.
    pub max_request_body_size: u32,
    /// The largest response body, in bytes.
    pub max_response_body_size: u32,
    /// The host names to look up for the rate limit's whitelist, each
    /// without its port.
    pub whitelisted_names: Vec<String>,
}

/// The hosts of a whitelist without their ports.
pub open spec fn names_of(hosts: Seq<Seq<char>>) -> Seq<Seq<char>> {
    Seq::new(hosts.len(), |i: int| before_port(hosts[i]))
}

/// The hosts of a whitelist without their ports.
pub fn whitelisted_names(hosts: &Vec<String>) -> (names: Vec<String>)
    ensures
        names.deep_view() == names_of(hosts.deep_view()),
{
    let mut names: Vec<String> = Vec::new();
    let mut i: usize = 0;
    while i < hosts.len()
        invariant
            i <= hosts@.len(),
            names@.len() == i,
            forall|k: int| 0 <= k < i ==> (#[trigger] names@[k])@ == before_port(hosts@[k]@),
        decreases hosts@.len() - i,
    {
        names.push(host_without_port(hosts[i].as_str()));
        i += 1;
    }
    assert(names.deep_view() =~= names_of(hosts.deep_view()));
    names
}

/// Reads a configuration, for a server that listens on `port` (`None`
/// where the listening address could not be had).
///
/// Hosts are filtered exactly when origins are configured. The plan is
/// refused where a configured origin cannot be a header value; the first
/// such origin is reported.
pub fn plan_server(config: &Config, port: Option<u16>) -> (res: Result<ServerPlan, InvalidOrigin>)
    ensures
        config.cors.is_some() && first_bad_origin(config.cors.unwrap().deep_view(), 0)
            < config.cors.unwrap()@.len() ==> res.is_err() && res.unwrap_err().index
            == first_bad_origin(config.cors.unwrap().deep_view(), 0),
        config.cors.is_none() || first_bad_origin(config.cors.unwrap().deep_view(), 0)
            == config.cors.unwrap()@.len() ==> res.is_ok() && ({
            let plan = res.unwrap();
            &&& match config.cors {
                Some(origins) => {
                    &&& plan.cors is List
                    &&& plan.cors->List_0.deep_view() == origins.deep_view()
                    &&& plan.host_filter.is_some()
                    &&& plan.host_filter.unwrap().deep_view() == local_hosts(port)
                },
                None => (plan.cors is Permissive) && plan.host_filter.is_none(),
            }
            &&& plan.max_request_body_size == payload_bytes(config.max_payload_in_mb)
            &&& plan.max_response_body_size == payload_bytes(config.max_payload_out_mb)
            &&& plan.whitelisted_names.deep_view() == names_of(
                config.rate_limit_whitelisted_hosts.deep_view(),
            )
        }),
{
    let cors: CorsPolicy = match try_into_cors(config.cors.as_ref()) {
        Ok(cors) => cors,
        Err(e) => {
            return Err(e);
        },
    };
    Ok(
        ServerPlan {
            host_filter: hosts_filtering(config.cors.is_some(), port),
            cors,
            max_request_body_size: payload_limit(config.max_payload_in_mb),
            max_response_body_size: payload_limit(config.max_payload_out_mb),
            whitelisted_names: whitelisted_names(&config.rate_limit_whitelisted_hosts),
        },
    )
}

/// What the server does for one request.
#[derive(Debug, Clone, Copy, PartialEq, Eq, Structural)]
pub struct RequestPlan {
    /// Whether the request asks for a websocket.
    pub is_websocket: bool,
    /// The middleware for the request, if it gets one.
    pub middleware: Option<MiddlewarePlan>,
}

/// Decides what to do for a request from `ip`: calls from an address on
/// the whitelist are not rate limited, and the middleware does what is
/// left to do.
pub fn plan_request(
    whitelist: &[IpKey],
    ip: IpKey,
    rate_limit: Option<u32>,
    metrics: bool,
    is_websocket: bool,
) -> (plan: RequestPlan)
    ensures
        plan.is_websocket == is_websocket,
        ({
            let limit = if listed(whitelist@, ip) {
                None
            } else {
                rate_limit
            };
            plan.middleware == if !metrics && limit.is_none() {
                None
            } else {
                Some(MiddlewarePlan { metrics, rate_limit: limit })
            }
        }),
{
    let limit: Option<u32> = rate_limit_for(whitelist, ip, rate_limit);
    RequestPlan { is_websocket, middleware: middleware_plan(metrics, limit) }
}

} // verus!
