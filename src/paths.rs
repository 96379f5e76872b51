//! Remote path layout and request addresses.
//!
//! Every record of a device sits under `devices/<device id>`: its status at
//! `status` and each relay's desired state at `relays/<relay name>`.
use vstd::prelude::*;
use vstd::string::*;

verus! {

/// `s` without the trailing run of `c`.
pub open spec fn strip_trailing(s: Seq<char>, c: char) -> Seq<char>
    decreases s.len(),
{
    if s.len() > 0 && s.last() == c {
        strip_trailing(s.drop_last(), c)
    } else {
        s
    }
}

/// `s` without the leading run of `c`.
pub open spec fn strip_leading(s: Seq<char>, c: char) -> Seq<char>
    decreases s.len(),
{
    if s.len() > 0 && s[0] == c {
        strip_leading(s.drop_first(), c)
    } else {
        s
    }
}

/// The path of a device's status record.
pub open spec fn status_path_of(id: Seq<char>) -> Seq<char> {
    "devices/"@ + id + "/status"@
}

/// The path of a relay's desired-state record.
pub open spec fn relay_path_of(id: Seq<char>, name: Seq<char>) -> Seq<char> {
    "devices/"@ + id + "/relays/"@ + name
}

/// The address of the record at `path` in the store rooted at `root`, with
/// the access token `auth` where there is one.
pub open spec fn url_of(root: Seq<char>, auth: Option<Seq<char>>, path: Seq<char>) -> Seq<char> {
    let base = strip_trailing(root, '/') + "/"@ + strip_leading(path, '/') + ".json"@;
    match auth {
        Some(a) => base + "?auth="@ + a,
        None => base,
    }
}

/// Where the remote store lives and how requests to it are authorised.
pub struct RemoteConfig {
    /// The store's base address.
    pub database_url: String,
    /// An access token appended to every request, where the store needs one.
    pub auth: Option<String>,
}

/// The view of an optional token.
pub open spec fn auth_view(auth: Option<String>) -> Option<Seq<char>> {
    match auth {
        Some(a) => Some(a@),
        None => None,
    }
}

fn without_trailing(s: &str, c: char) -> (r: &str)
    ensures
        r@ == strip_trailing(s@, c),
{
    let mut end = s.unicode_len();
    assert(s@.subrange(0, end as int) =~= s@);
    while end > 0 && s.get_char(end - 1) == c
        invariant
            end <= s@.len(),
            strip_trailing(s@.subrange(0, end as int), c) == strip_trailing(s@, c),
        decreases end,
    {
        assert(s@.subrange(0, end as int).drop_last() =~= s@.subrange(0, end - 1));
        end = end - 1;
    }
    s.substring_char(0, end)
}

fn without_leading(s: &str, c: char) -> (r: &str)
    ensures
        r@ == strip_leading(s@, c),
{
    let len = s.unicode_len();
    let mut start: usize = 0;
    assert(s@.subrange(0, len as int) =~= s@);
    while start < len && s.get_char(start) == c
        invariant
            start <= len,
            len == s@.len(),
            strip_leading(s@.subrange(start as int, len as int), c) == strip_leading(s@, c),
        decreases len - start,
    {
        assert(s@.subrange(start as int, len as int).drop_first() =~= s@.subrange(
            start + 1,
            len as int,
        ));
        start = start + 1;
    }
    s.substring_char(start, len)
}

/// The path of the status record of device `device_id`.
pub fn status_path(device_id: &str) -> (r: String)
    ensures
        r@ == status_path_of(device_id@),
{
    let mut p = String::from_str("devices/");
    p.append(device_id);
    p.append("/status");
    assert(p@ =~= status_path_of(device_id@));
    p
}

/// The path of the desired-state record of relay `relay_name` of device `device_id`.
pub fn relay_path(device_id: &str, relay_name: &str) -> (r: String)
    ensures
        r@ == relay_path_of(device_id@, relay_name@),
{
    let mut p = String::from_str("devices/");
    p.append(device_id);
    p.append("/relays/");
    p.append(relay_name);
    assert(p@ =~= relay_path_of(device_id@, relay_name@));
    p
}

/// The request address of the record at `path`: the base address without
/// trailing slashes, one slash, the path without leading slashes, `.json`, and
/// `?auth=<token>` where a token is set.
pub fn firebase_url(config: &RemoteConfig, path: &str) -> (r: String)
    ensures
        r@ == url_of(config.database_url@, auth_view(config.auth), path@),
{
    let mut u = String::from_str(without_trailing(config.database_url.as_str(), '/'));
    u.append("/");
    u.append(without_leading(path, '/'));
    u.append(".json");
    match &config.auth {
        Some(a) => {
            u.append("?auth=");
            u.append(a.as_str());
        },
        None => {},
    }
    assert(u@ =~= url_of(config.database_url@, auth_view(config.auth), path@));
    u
}

} // verus!
