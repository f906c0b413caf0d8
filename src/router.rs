use vstd::prelude::*;
use vstd::string::*;

verus! {

/// Number of leading characters of a raw `Host` value that come before its first `:`.
pub open spec fn key_len(raw: Seq<char>) -> nat
    decreases raw.len(),
{
    if raw.len() == 0 || raw[0] == ':' {
        0
    } else {
        1 + key_len(raw.drop_first())
    }
}

/// The routing key of a raw `Host` value: the segment left of its first `:`
/// (the whole value when it holds none).
pub open spec fn routing_key(raw: Seq<char>) -> Seq<char> {
    raw.take(key_len(raw) as int)
}

/// The key length is the index of the first `:`, or the full length.
pub proof fn lemma_key_len_first_colon(raw: Seq<char>, i: int)
    requires
        0 <= i <= raw.len(),
        forall|j: int| 0 <= j < i ==> raw[j] != ':',
        i == raw.len() || raw[i] == ':',
    ensures
        key_len(raw) == i,
    decreases i,
{
    if i > 0 {
        let rest = raw.drop_first();
        assert forall|j: int| 0 <= j < i - 1 implies rest[j] != ':' by {
            assert(rest[j] == raw[j + 1]);
        }
        if i < raw.len() {
            assert(rest[i - 1] == raw[i]);
        }
        lemma_key_len_first_colon(rest, i - 1);
    }
}

/// Appending `:<port>` to a value without `:` leaves its routing key unchanged.
pub proof fn lemma_routing_key_port_suffix(host: Seq<char>, port: Seq<char>)
    requires
        forall|j: int| 0 <= j < host.len() ==> host[j] != ':',
    ensures
        routing_key(host) == host,
        routing_key(host + seq![':'] + port) == host,
{
    lemma_key_len_first_colon(host, host.len() as int);
    let full = host + seq![':'] + port;
    assert forall|j: int| 0 <= j < host.len() implies full[j] != ':' by {
        assert(full[j] == host[j]);
    }
    assert(full[host.len() as int] == ':');
    lemma_key_len_first_colon(full, host.len() as int);
    assert(full.take(host.len() as int) =~= host);
    assert(host.take(host.len() as int) =~= host);
}

/// Strips a trailing `:<port>` from a raw `Host` value: the part before the first `:`.
pub fn normalize_host(raw: &str) -> (r: String)
    ensures
        r@ == routing_key(raw@),
{
    let n = raw.unicode_len();
    let mut i: usize = 0;
    let mut at_colon = false;
    while i < n && !at_colon
        invariant
            n == raw@.len(),
            0 <= i <= n,
            forall|j: int| 0 <= j < i ==> raw@[j] != ':',
            at_colon ==> i < n && raw@[i as int] == ':',
        decreases n - i + if at_colon { 0int } else { 1int },
    {
        if raw.get_char(i) == ':' {
            at_colon = true;
        } else {
            i = i + 1;
        }
    }
    proof {
        lemma_key_len_first_colon(raw@, i as int);
    }
    raw.substring_char(0, i).to_string()
}

/// The map that a list of (host, backend) entries denotes; a later entry
/// overrides an earlier one with the same host.
pub open spec fn entries_map(entries: Seq<(Seq<char>, Seq<char>)>) -> Map<Seq<char>, Seq<char>>
    decreases entries.len(),
{
    if entries.len() == 0 {
        Map::empty()
    } else {
        let last = entries.last();
        entries_map(entries.drop_last()).insert(last.0, last.1)
    }
}

/// The view of a list of string pairs as pairs of character sequences.
pub open spec fn pairs_view(v: Seq<(String, String)>) -> Seq<(Seq<char>, Seq<char>)> {
    v.map_values(|p: (String, String)| (p.0@, p.1@))
}

/// Static table from hostname to backend address (`host:port`).
pub struct RoutingTable {
    entries: Vec<(String, String)>,
}

impl View for RoutingTable {
    type V = Map<Seq<char>, Seq<char>>;

    closed spec fn view(&self) -> Map<Seq<char>, Seq<char>> {
        entries_map(pairs_view(self.entries@))
    }
}

/// Outcome of looking up a `Host` value in the table.
#[derive(Debug, PartialEq, Eq)]
pub enum RouteResolution {
    Found(String),
    NotFound,
}

/// What `resolve` returns for a raw `Host` value and a table.
pub open spec fn resolve_spec(table: Map<Seq<char>, Seq<char>>, raw: Seq<char>) -> Option<Seq<char>> {
    let key = routing_key(raw);
    if key.len() > 0 && table.contains_key(key) {
        Some(table[key])
    } else {
        None
    }
}

impl RouteResolution {
    /// The backend address found, if any.
    pub open spec fn spec_address(self) -> Option<Seq<char>> {
        match self {
            RouteResolution::Found(a) => Some(a@),
            RouteResolution::NotFound => None,
        }
    }
}

/// Entries at or after `i` do not mention `key`: the map of the prefix agrees on it.
proof fn lemma_entries_map_prefix(s: Seq<(Seq<char>, Seq<char>)>, i: int, key: Seq<char>)
    requires
        0 <= i <= s.len(),
        forall|j: int| i <= j < s.len() ==> s[j].0 != key,
    ensures
        entries_map(s).contains_key(key) == entries_map(s.take(i)).contains_key(key),
        entries_map(s).contains_key(key) ==> entries_map(s)[key] == entries_map(s.take(i))[key],
    decreases s.len(),
{
    if i < s.len() {
        let p = s.drop_last();
        lemma_entries_map_prefix(p, i, key);
        assert(p.take(i) =~= s.take(i));
    } else {
        assert(s.take(i) =~= s);
    }
}

impl RoutingTable {
    /// An empty table.
    pub fn new() -> (t: RoutingTable)
        ensures
            t@ == Map::<Seq<char>, Seq<char>>::empty(),
    {
        RoutingTable { entries: Vec::new() }
    }

    /// Adds (or replaces) the backend address of a host.
    pub fn insert(&mut self, host: String, address: String)
        ensures
            final(self)@ == old(self)@.insert(host@, address@),
    {
        let ghost before = pairs_view(self.entries@);
        self.entries.push((host, address));
        proof {
            let after = pairs_view(self.entries@);
            assert(after.drop_last() =~= before);
        }
    }

    /// The backend address of a host (exact, no port), if any.
    pub fn get(&self, host: &String) -> (r: Option<String>)
        ensures
            match r {
                Some(a) => self@.contains_key(host@) && self@[host@] == a@,
                None => !self@.contains_key(host@),
            },
    {
        let ghost pv = pairs_view(self.entries@);
        let mut i: usize = self.entries.len();
        while i > 0
            invariant
                0 <= i <= self.entries.len(),
                pv == pairs_view(self.entries@),
                forall|j: int| i <= j < pv.len() ==> pv[j].0 != host@,
            decreases i,
        {
            if self.entries[i - 1].0 == *host {
                proof {
                    lemma_entries_map_prefix(pv, i as int, host@);
                    assert(pv.take(i as int).drop_last() =~= pv.take(i as int - 1));
                }
                return Some(self.entries[i - 1].1.clone());
            }
            i = i - 1;
        }
        proof {
            lemma_entries_map_prefix(pv, 0, host@);
            assert(pv.take(0) =~= Seq::<(Seq<char>, Seq<char>)>::empty());
        }
        None
    }

    /// Resolves a raw `Host` value (which may carry a `:<port>` suffix) to a
    /// backend address. An empty routing key never matches.
    pub fn resolve(&self, host_header: &str) -> (r: RouteResolution)
        ensures
            r.spec_address() == resolve_spec(self@, host_header@),
    {
        let key = normalize_host(host_header);
        if key.unicode_len() == 0 {
            return RouteResolution::NotFound;
        }
        match self.get(&key) {
            Some(a) => RouteResolution::Found(a),
            None => RouteResolution::NotFound,
        }
    }
}

} // verus!
