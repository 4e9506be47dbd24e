//! The integer-valued parts of the Pi-hole API responses, and what the
//! exporter computes from them.
use vstd::prelude::*;

use crate::text::{ascii_lowercase, push_signed_decimal, signed_decimal, to_ascii_lowercase};

verus! {

/// The most queried (or most blocked) domains.
#[derive(Debug)]
pub struct TopDomains {
    pub domains: Vec<DomainCount>,
}

#[derive(Debug, Clone)]
pub struct DomainCount {
    pub domain: String,
    pub count: i64,
}

/// The most active clients.
#[derive(Debug)]
pub struct TopClients {
    pub clients: Vec<PiHoleClient>,
}

#[derive(Debug, Clone)]
pub struct PiHoleClient {
    pub ip: String,
    pub name: String,
    pub count: i64,
}

/// Replies by type.
#[allow(non_snake_case)]
#[derive(Debug, Clone, Copy)]
pub struct ReplyStats {
    pub UNKNOWN: i64,
    pub NODATA: i64,
    pub NXDOMAIN: i64,
    pub CNAME: i64,
    pub IP: i64,
    pub DOMAIN: i64,
    pub RRNAME: i64,
    pub SERVFAIL: i64,
    pub REFUSED: i64,
    pub NOTIMP: i64,
    pub OTHER: i64,
    pub DNSSEC: i64,
    pub NONE: i64,
    pub BLOB: i64,
}

#[derive(Debug, Clone, Copy)]
pub struct ClientStats {
    pub active: i64,
    pub total: i64,
}

#[derive(Debug, Clone, Copy)]
pub struct GravityStats {
    pub domains_being_blocked: i64,
    pub last_update: i64,
}

/// The query history, one slot per 10 minutes.
#[derive(Debug)]
pub struct HistoryResponse {
    pub history: Vec<HistorySlot>,
}

#[derive(Debug, Clone, Copy)]
pub struct HistorySlot {
    pub timestamp: i64,
    pub total: i64,
    pub cached: i64,
    pub blocked: i64,
    pub forwarded: i64,
}

/// A client as plain values, its count an unbounded integer.
pub struct ClientEntry {
    pub ip: Seq<char>,
    pub name: Seq<char>,
    pub count: int,
}

pub open spec fn client_entry(c: PiHoleClient) -> ClientEntry {
    ClientEntry { ip: c.ip@, name: c.name@, count: c.count as int }
}

pub open spec fn client_entries(s: Seq<PiHoleClient>) -> Seq<ClientEntry> {
    s.map_values(|c: PiHoleClient| client_entry(c))
}

pub open spec fn entry_ips(s: Seq<ClientEntry>) -> Seq<Seq<char>> {
    s.map_values(|e: ClientEntry| e.ip)
}

/// Adds one client to a merged list: its count joins the entry with the same
/// IP address, or it becomes a new entry at the end.
pub open spec fn merge_step(acc: Seq<ClientEntry>, c: ClientEntry) -> Seq<ClientEntry> {
    match entry_ips(acc).index_of_first(c.ip) {
        Some(j) => acc.update(j, ClientEntry { count: acc[j].count + c.count, ..acc[j] }),
        None => acc.push(c),
    }
}

/// The clients of `s` merged by IP address, in the order of first appearance.
pub open spec fn merge_spec(s: Seq<ClientEntry>) -> Seq<ClientEntry>
    decreases s.len(),
{
    if s.len() == 0 {
        Seq::empty()
    } else {
        merge_step(merge_spec(s.drop_last()), s.last())
    }
}

/// The sum of the counts of the clients of `s` with IP address `ip`.
pub open spec fn ip_count(s: Seq<ClientEntry>, ip: Seq<char>) -> int
    decreases s.len(),
{
    if s.len() == 0 {
        0
    } else {
        ip_count(s.drop_last(), ip) + if s.last().ip == ip {
            s.last().count
        } else {
            0
        }
    }
}

/// Every running per-address sum of `s` fits in an `i64`.
pub open spec fn counts_fit(s: Seq<ClientEntry>) -> bool {
    forall|k: int, ip: Seq<char>|
        0 <= k <= s.len() ==> i64::MIN <= #[trigger] ip_count(s.take(k), ip) <= i64::MAX
}

/// The facts that tie a merged list to its input.
pub open spec fn merged_facts(s: Seq<ClientEntry>, m: Seq<ClientEntry>) -> bool {
    &&& entry_ips(m).no_duplicates()
    &&& forall|j: int| 0 <= j < m.len() ==> #[trigger] m[j].count == ip_count(s, m[j].ip)
    &&& forall|j: int| 0 <= j < m.len() ==> entry_ips(s).contains(#[trigger] m[j].ip)
    &&& forall|i: int| 0 <= i < s.len() ==> entry_ips(m).contains(#[trigger] s[i].ip)
}

proof fn lemma_merge_facts(s: Seq<ClientEntry>)
    ensures
        merged_facts(s, merge_spec(s)),
    decreases s.len(),
{
    if s.len() > 0 {
        let p = s.drop_last();
        let c = s.last();
        lemma_merge_facts(p);
        let a = merge_spec(p);
        let m = merge_spec(s);
        entry_ips(a).index_of_first_ensures(c.ip);
        assert forall|i: int| 0 <= i < p.len() implies entry_ips(s).contains(#[trigger] p[i].ip) by {
            assert(entry_ips(s)[i] == p[i].ip);
        }
        assert(entry_ips(s)[s.len() - 1] == c.ip);
        match entry_ips(a).index_of_first(c.ip) {
            Some(j) => {
                assert(entry_ips(m) =~= entry_ips(a));
                assert forall|k: int| 0 <= k < m.len() implies #[trigger] m[k].count == ip_count(
                    s,
                    m[k].ip,
                ) by {
                    if k != j {
                        assert(entry_ips(a)[k] != entry_ips(a)[j]);
                    }
                }
                assert forall|i: int| 0 <= i < s.len() implies entry_ips(m).contains(
                    #[trigger] s[i].ip,
                ) by {
                    if i < s.len() - 1 {
                        assert(s[i] == p[i]);
                    }
                }
            },
            None => {
                assert(entry_ips(m) =~= entry_ips(a).push(c.ip));
                assert(ip_count(p, c.ip) == 0) by {
                    lemma_ip_count_absent(p, c.ip);
                }
                assert forall|k: int| 0 <= k < m.len() implies #[trigger] m[k].count == ip_count(
                    s,
                    m[k].ip,
                ) by {
                    if k < a.len() {
                        assert(entry_ips(a)[k] == a[k].ip);
                    }
                }
                assert forall|i: int| 0 <= i < s.len() implies entry_ips(m).contains(
                    #[trigger] s[i].ip,
                ) by {
                    if i < s.len() - 1 {
                        assert(s[i] == p[i]);
                        assert(entry_ips(a).contains(p[i].ip));
                        let w = choose|w: int| 0 <= w < entry_ips(a).len() && entry_ips(a)[w] == p[i].ip;
                        assert(entry_ips(m)[w] == p[i].ip);
                    } else {
                        assert(entry_ips(m)[m.len() - 1] == c.ip);
                    }
                }
            },
        }
    }
}

proof fn lemma_ip_count_absent(s: Seq<ClientEntry>, ip: Seq<char>)
    requires
        forall|i: int| 0 <= i < s.len() ==> s[i].ip != ip,
    ensures
        ip_count(s, ip) == 0,
    decreases s.len(),
{
    if s.len() > 0 {
        lemma_ip_count_absent(s.drop_last(), ip);
    }
}

/// Merging gives each IP address of the input exactly one entry, whose count
/// is the sum of that address's counts in the input.
pub proof fn law_merge_combines_counts_by_ip(s: Seq<ClientEntry>, ip: Seq<char>)
    requires
        entry_ips(s).contains(ip),
    ensures
        exists|j: int|
            0 <= j < merge_spec(s).len() && merge_spec(s)[j].ip == ip && merge_spec(s)[j].count
                == ip_count(s, ip),
        forall|j: int, k: int|
            0 <= j < k < merge_spec(s).len() ==> merge_spec(s)[j].ip != merge_spec(s)[k].ip,
{
    lemma_merge_facts(s);
    let m = merge_spec(s);
    let i = choose|i: int| 0 <= i < entry_ips(s).len() && entry_ips(s)[i] == ip;
    assert(s[i].ip == ip);
    assert(entry_ips(m).contains(s[i].ip));
    let j = choose|j: int| 0 <= j < entry_ips(m).len() && entry_ips(m)[j] == ip;
    assert(m[j].ip == ip);
    assert forall|j: int, k: int| 0 <= j < k < m.len() implies m[j].ip != m[k].ip by {
        assert(entry_ips(m)[j] == m[j].ip);
        assert(entry_ips(m)[k] == m[k].ip);
    }
}

/// Every merged entry keeps the name of the first input entry with its
/// address (the permitted clients before the blocked ones).
pub proof fn law_merge_keeps_first_name(s: Seq<ClientEntry>, j: int)
    requires
        0 <= j < merge_spec(s).len(),
    ensures
        entry_ips(s).index_of_first(merge_spec(s)[j].ip) is Some,
        merge_spec(s)[j].name == s[entry_ips(s).index_of_first(merge_spec(s)[j].ip)->0].name,
    decreases s.len(),
{
    lemma_merge_facts(s);
    let m = merge_spec(s);
    entry_ips(s).index_of_first_ensures(m[j].ip);
    let p = s.drop_last();
    let c = s.last();
    let a = merge_spec(p);
    lemma_merge_facts(p);
    entry_ips(a).index_of_first_ensures(c.ip);
    let ip = m[j].ip;
    assert(entry_ips(s) =~= entry_ips(p).push(c.ip));
    match entry_ips(a).index_of_first(c.ip) {
        Some(j0) => {
            assert(m[j].name == a[j].name && m[j].ip == a[j].ip);
            law_merge_keeps_first_name(p, j);
            entry_ips(p).index_of_first_ensures(ip);
            let f = entry_ips(p).index_of_first(ip)->0;
            assert(entry_ips(s)[f] == ip);
            assert(entry_ips(s).index_of_first(ip) == Some(f)) by {
                let g = entry_ips(s).index_of_first(ip)->0;
                if g < f {
                    assert(entry_ips(p)[g] == entry_ips(s)[g]);
                }
            }
            assert(s[f] == p[f]);
        },
        None => {
            if j < a.len() {
                assert(m[j] == a[j]);
                law_merge_keeps_first_name(p, j);
                entry_ips(p).index_of_first_ensures(ip);
                let f = entry_ips(p).index_of_first(ip)->0;
                assert(entry_ips(s)[f] == ip);
                assert(entry_ips(s).index_of_first(ip) == Some(f)) by {
                    let g = entry_ips(s).index_of_first(ip)->0;
                    if g < f {
                        assert(entry_ips(p)[g] == entry_ips(s)[g]);
                    }
                }
                assert(s[f] == p[f]);
            } else {
                assert(m[j] == c);
                assert(!entry_ips(p).contains(c.ip)) by {
                    if entry_ips(p).contains(c.ip) {
                        let w = choose|w: int| 0 <= w < entry_ips(p).len() && entry_ips(p)[w] == c.ip;
                        assert(entry_ips(a).contains(p[w].ip));
                    }
                }
                let n = s.len() - 1;
                assert(entry_ips(s)[n] == c.ip);
                assert(entry_ips(s).index_of_first(ip) == Some(n)) by {
                    let g = entry_ips(s).index_of_first(ip)->0;
                    if g < n {
                        assert(entry_ips(p)[g] == entry_ips(s)[g]);
                    }
                }
            }
        },
    }
}

/// Merging adds no address that the input does not hold.
pub proof fn law_merge_adds_no_address(s: Seq<ClientEntry>, j: int)
    requires
        0 <= j < merge_spec(s).len(),
    ensures
        entry_ips(s).contains(merge_spec(s)[j].ip),
{
    lemma_merge_facts(s);
}

/// Every running per-address sum of the first `k` clients of `s` (and of
/// each shorter prefix) fits in an `i64`.
pub open spec fn counts_fit_upto(s: Seq<ClientEntry>, k: int) -> bool {
    forall|k2: int, ip: Seq<char>|
        0 <= k2 <= k ==> i64::MIN <= #[trigger] ip_count(s.take(k2), ip) <= i64::MAX
}

/// Combines the permitted and the blocked clients, adding the counts of
/// entries with the same IP address. Each address keeps the name of its first
/// entry; addresses come in the order of first appearance.
pub fn merge_clients(clients1: &[PiHoleClient], clients2: &[PiHoleClient]) -> (r: Vec<PiHoleClient>)
    requires
        counts_fit(client_entries(clients1@ + clients2@)),
        clients1@.len() + clients2@.len() <= usize::MAX,
    ensures
        client_entries(r@) == merge_spec(client_entries(clients1@ + clients2@)),
{
    match try_merge_clients(clients1, clients2) {
        Some(v) => v,
        None => {
            assert(false);
            Vec::new()
        },
    }
}

/// Merges the clients as `merge_clients` does, or answers `None` when a
/// per-address sum of counts would leave the range of an `i64`.
pub fn try_merge_clients(clients1: &[PiHoleClient], clients2: &[PiHoleClient]) -> (r: Option<
    Vec<PiHoleClient>,
>)
    requires
        clients1@.len() + clients2@.len() <= usize::MAX,
    ensures
        r is Some <==> counts_fit(client_entries(clients1@ + clients2@)),
        r matches Some(v) ==> client_entries(v@) == merge_spec(client_entries(clients1@ + clients2@)),
{
    let ghost all = client_entries(clients1@ + clients2@);
    let mut result: Vec<PiHoleClient> = Vec::new();
    let total = clients1.len() + clients2.len();
    let mut k: usize = 0;
    assert(all.take(0) =~= Seq::<ClientEntry>::empty());
    assert(client_entries(result@) =~= Seq::<ClientEntry>::empty());
    while k < total
        invariant
            k <= total == clients1@.len() + clients2@.len(),
            all == client_entries(clients1@ + clients2@),
            all.len() == total,
            counts_fit_upto(all, k as int),
            client_entries(result@) == merge_spec(all.take(k as int)),
        decreases total - k,
    {
        let c: &PiHoleClient = if k < clients1.len() {
            &clients1[k]
        } else {
            &clients2[k - clients1.len()]
        };
        assert(all[k as int] == client_entry(*c));
        let ghost prev = all.take(k as int);
        let ghost next = all.take(k + 1);
        assert(next.drop_last() =~= prev);
        assert(next.last() == client_entry(*c));
        assert(next.last().ip == c.ip@);
        proof {
            lemma_merge_facts(prev);
            lemma_merge_facts(next);
        }
        let mut j: usize = 0;
        while j < result.len() && result[j].ip != c.ip
            invariant
                j <= result@.len(),
                forall|q: int| 0 <= q < j ==> result@[q].ip@ != c.ip@,
            decreases result.len() - j,
        {
            j = j + 1;
        }
        let found = j < result.len();
        let ghost ips = entry_ips(client_entries(result@));
        proof {
            ips.index_of_first_ensures(c.ip@);
        }
        if found {
            assert(client_entries(result@)[j as int] == client_entry(result@[j as int]));
            assert(ips[j as int] == c.ip@);
            assert(ips.contains(c.ip@));
            let ghost jj = ips.index_of_first(c.ip@)->0;
            assert(jj == j) by {
                assert(ips[jj] == c.ip@);
                if jj < j {
                    assert(client_entries(result@)[jj] == client_entry(result@[jj]));
                    assert(result@[jj].ip@ == ips[jj]);
                }
            }
            assert(result@[j as int].count == ip_count(prev, c.ip@));
            assert(ip_count(next, c.ip@) == ip_count(prev, c.ip@) + c.count);
            let sum = result[j].count.checked_add(c.count);
            match sum {
                None => {
                    assert(!counts_fit(all)) by {
                        assert(!(i64::MIN <= ip_count(all.take(k + 1), c.ip@) <= i64::MAX));
                    }
                    return None;
                },
                Some(new_count) => {
                    let ghost m1 = merge_spec(next);
                    assert(m1 == merge_step(merge_spec(prev), client_entry(*c)));
                    assert(m1[j as int].count == result@[j as int].count + c.count);
                    let updated = PiHoleClient {
                        ip: result[j].ip.clone(),
                        name: result[j].name.clone(),
                        count: new_count,
                    };
                    result.set(j, updated);
                    assert(client_entries(result@) =~= m1);
                },
            }
        } else {
            assert(!ips.contains(c.ip@)) by {
                if ips.contains(c.ip@) {
                    let w = choose|w: int| 0 <= w < ips.len() && ips[w] == c.ip@;
                    assert(client_entries(result@)[w] == client_entry(result@[w]));
                    assert(result@[w].ip@ == ips[w]);
                }
            }
            assert(ip_count(prev, c.ip@) == 0) by {
                assert forall|i: int| 0 <= i < prev.len() implies prev[i].ip != c.ip@ by {
                    assert(entry_ips(merge_spec(prev)).contains(prev[i].ip));
                }
                lemma_ip_count_absent(prev, c.ip@);
            }
            let copy = PiHoleClient { ip: c.ip.clone(), name: c.name.clone(), count: c.count };
            let ghost before = result@;
            result.push(copy);
            assert(client_entries(result@) =~= client_entries(before).push(client_entry(*c)));
        }
        assert(counts_fit_upto(all, k + 1)) by {
            assert forall|k2: int, ip: Seq<char>| 0 <= k2 <= k + 1 implies i64::MIN
                <= #[trigger] ip_count(all.take(k2), ip) <= i64::MAX by {
                if k2 == k + 1 {
                    assert(all.take(k2) == next);
                    if ip != c.ip@ {
                        assert(ip_count(next, ip) == ip_count(prev, ip));
                        assert(i64::MIN <= ip_count(all.take(k as int), ip) <= i64::MAX);
                    }
                }
            }
        }
        k = k + 1;
    }
    assert(all.take(total as int) =~= all);
    assert(counts_fit(all)) by {
        assert forall|k2: int, ip: Seq<char>| 0 <= k2 <= all.len() implies i64::MIN
            <= #[trigger] ip_count(all.take(k2), ip) <= i64::MAX by {
            assert(i64::MIN <= ip_count(all.take(k2), ip) <= i64::MAX);
        }
    }
    Some(result)
}

/// A status label as the exporter reports it: ASCII lower case.
pub fn normalize_status_label(status: &str) -> (r: String)
    ensures
        r@ == ascii_lowercase(status@),
{
    to_ascii_lowercase(status)
}

/// The index of the slot that `Iterator::max_by_key` on the timestamps picks:
/// the greatest timestamp, the last one among equals.
pub open spec fn latest_index(s: Seq<HistorySlot>) -> int
    decreases s.len(),
{
    if s.len() <= 1 {
        0
    } else {
        let p = latest_index(s.drop_last());
        if s.last().timestamp >= s[p].timestamp {
            s.len() - 1
        } else {
            p
        }
    }
}

proof fn lemma_latest_index(s: Seq<HistorySlot>)
    requires
        s.len() > 0,
    ensures
        0 <= latest_index(s) < s.len(),
        forall|i: int| 0 <= i < s.len() ==> #[trigger] s[i].timestamp <= s[latest_index(s)].timestamp,
        forall|i: int|
            latest_index(s) < i < s.len() ==> #[trigger] s[i].timestamp < s[latest_index(s)].timestamp,
    decreases s.len(),
{
    if s.len() > 1 {
        lemma_latest_index(s.drop_last());
        let p = latest_index(s.drop_last());
        assert forall|i: int| 0 <= i < s.len() - 1 implies #[trigger] s[i].timestamp
            == s.drop_last()[i].timestamp by {}
    }
}

/// The latest slot has the greatest timestamp, and every slot after it an
/// earlier one.
pub proof fn law_latest_slot_is_latest(s: Seq<HistorySlot>)
    requires
        s.len() > 0,
    ensures
        0 <= latest_index(s) < s.len(),
        forall|i: int| 0 <= i < s.len() ==> #[trigger] s[i].timestamp <= s[latest_index(s)].timestamp,
        forall|i: int|
            latest_index(s) < i < s.len() ==> #[trigger] s[i].timestamp < s[latest_index(s)].timestamp,
{
    lemma_latest_index(s);
}

/// The slot with the greatest timestamp (the last one among equals), or
/// `None` for an empty history.
pub fn latest_history_slot(history: &[HistorySlot]) -> (r: Option<&HistorySlot>)
    ensures
        match r {
            None => history@.len() == 0,
            Some(slot) => history@.len() > 0 && *slot == history@[latest_index(history@)],
        },
{
    if history.len() == 0 {
        return None;
    }
    let mut best: usize = 0;
    let mut i: usize = 1;
    while i < history.len()
        invariant
            1 <= i <= history@.len(),
            best == latest_index(history@.take(i as int)),
            best < i,
        decreases history.len() - i,
    {
        proof {
            let t = history@.take(i + 1);
            assert(t.drop_last() =~= history@.take(i as int));
            assert(t.last() == history@[i as int]);
            assert(t[best as int] == history@[best as int]);
        }
        if history[i].timestamp >= history[best].timestamp {
            best = i;
        }
        i = i + 1;
    }
    assert(history@.take(history@.len() as int) =~= history@);
    Some(&history[best])
}

/// The label of an upstream's port: empty when the API gave none (a negative
/// port), else the port in decimal.
pub open spec fn port_label_spec(port: i64) -> Seq<char> {
    if port < 0 {
        Seq::empty()
    } else {
        signed_decimal(port as int)
    }
}

/// The label of an upstream's port.
pub fn upstream_port_label(port: i64) -> (r: String)
    ensures
        r@ == port_label_spec(port),
{
    let mut s = String::new();
    if port >= 0 {
        push_signed_decimal(&mut s, port);
        assert(s@ =~= port_label_spec(port));
    }
    s
}

/// The port that the API reports when it gives none.
pub fn default_upstream_port() -> (p: i64)
    ensures
        p == -1,
{
    -1
}

} // verus!
