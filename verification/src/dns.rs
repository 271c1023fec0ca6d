//! The table of public DNS servers offered on the DNS page, and the
//! decisions that the page takes with it.
use vstd::prelude::*;

use crate::text::{first_index_of, lemma_first_index_reaches, strings_view};

verus! {

/// One entry of the DNS server table: the name shown to the user and the
/// comma-separated IPv4 and IPv6 server addresses.
pub struct DnsServer {
    pub name: String,
    pub ipv4: String,
    pub ipv6: String,
}

/// The abstract value of a [`DnsServer`].
pub struct DnsServerView {
    pub name: Seq<char>,
    pub ipv4: Seq<char>,
    pub ipv6: Seq<char>,
}

impl View for DnsServer {
    type V = DnsServerView;

    open spec fn view(&self) -> DnsServerView {
        DnsServerView { name: self.name@, ipv4: self.ipv4@, ipv6: self.ipv6@ }
    }
}

/// The abstract contents of a list of servers.
pub open spec fn servers_view(v: Seq<DnsServer>) -> Seq<DnsServerView> {
    v.map_values(|s: DnsServer| s@)
}

/// Builds a table entry from its three strings.
pub open spec fn entry(name: &str, ipv4: &str, ipv6: &str) -> DnsServerView {
    DnsServerView { name: name@, ipv4: ipv4@, ipv6: ipv6@ }
}

/// The `i`-th server of the table, in the order in which they are shown.
pub open spec fn dns_server_entry(i: int) -> DnsServerView {
    if i == 0 {
        entry("AdGuard", "94.140.14.14,94.140.15.15", "2a10:50c0::ad1:ff,2a10:50c0::ad2:ff")
    } else if i == 1 {
        entry("AdGuard Family Protection", "94.140.14.15,94.140.15.16", "2a10:50c0::bad1:ff,2a10:50c0::bad2:ff")
    } else if i == 2 {
        entry("Cloudflare", "1.1.1.1,1.0.0.1", "2606:4700:4700::1111,2606:4700:4700::1001")
    } else if i == 3 {
        entry("Cloudflare Malware blocking", "1.1.1.2,1.0.0.2", "2606:4700:4700::1112,2606:4700:4700::1002")
    } else if i == 4 {
        entry("Cloudflare Malware and adult content blocking", "1.1.1.3,1.0.0.3", "2606:4700:4700::1113,2606:4700:4700::1003")
    } else if i == 5 {
        entry("Cisco Umbrella(OpenDNS)", "208.67.222.222,208.67.220.220", "2620:119:35::35,2620:119:53::53")
    } else if i == 6 {
        entry("DNS.Watch", "84.200.69.80,84.200.70.40", "2001:1608:10:25::1c04:b12f,2001:1608:10:25::9249:d69b")
    } else if i == 7 {
        entry("GCore", "95.85.95.85,2.56.220.2", "2a03:90c0:999d::1,2a03:90c0:9992::1")
    } else if i == 8 {
        entry("Google", "8.8.8.8,8.8.4.4", "2001:4860:4860::8888,2001:4860:4860::8844")
    } else if i == 9 {
        entry("Quad9", "9.9.9.9,149.112.112.112", "2620:fe::fe,2620:fe::9")
    } else if i == 10 {
        entry("Yandex", "77.88.8.8,77.88.8.1", "2a02:6b8::feed:0ff,2a02:6b8:0:1::feed:0ff")
    } else if i == 11 {
        entry("Yandex Malware blocking", "77.88.8.88,77.88.8.2", "2a02:6b8::feed:bad,2a02:6b8:0:1::feed:bad")
    } else if i == 12 {
        entry("Yandex Malware and adult content blocking", "77.88.8.7,77.88.8.3", "2a02:6b8::feed:a11,2a02:6b8:0:1::feed:a11")
    } else if i == 13 {
        entry("阿里云公共DNS (AliDNS)", "223.5.5.5,223.6.6.6", "2400:3200::1,2400:3200:baba::1")
    } else {
        entry("腾讯云 DNSPod (Tencent)", "119.29.29.29,119.28.28.28", "2402:4e00::,2402:4e00:1::")
    }
}

/// The number of servers in the table.
pub open spec fn dns_server_count() -> nat {
    15
}

/// The DNS servers offered, in the order in which they are shown.
pub open spec fn dns_server_table() -> Seq<DnsServerView> {
    Seq::new(dns_server_count(), |i: int| dns_server_entry(i))
}

/// A cheap fingerprint of a string of the table: its length and its first
/// and last two characters. It tells the strings of each column apart.
spec fn text_key(s: Seq<char>) -> (nat, char, char, char) {
    (s.len(), s[0], s[s.len() - 1], s[s.len() - 2])
}

/// No two servers of the table share a name, an IPv4 address list or an
/// IPv6 address list, and every address list is non-empty.
pub proof fn lemma_dns_table_distinct()
    ensures
        forall|i: int, j: int|
            #![trigger dns_server_table()[i], dns_server_table()[j]]
            0 <= i < j < dns_server_table().len() ==> {
                &&& dns_server_table()[i].name != dns_server_table()[j].name
                &&& dns_server_table()[i].ipv4 != dns_server_table()[j].ipv4
                &&& dns_server_table()[i].ipv6 != dns_server_table()[j].ipv6
            },
        forall|i: int|
            0 <= i < dns_server_table().len() ==> #[trigger] dns_server_table()[i].ipv4.len() > 0
                && dns_server_table()[i].ipv6.len() > 0,
{
    reveal_strlit("AdGuard");
    reveal_strlit("94.140.14.14,94.140.15.15");
    reveal_strlit("2a10:50c0::ad1:ff,2a10:50c0::ad2:ff");
    reveal_strlit("AdGuard Family Protection");
    reveal_strlit("94.140.14.15,94.140.15.16");
    reveal_strlit("2a10:50c0::bad1:ff,2a10:50c0::bad2:ff");
    reveal_strlit("Cloudflare");
    reveal_strlit("1.1.1.1,1.0.0.1");
    reveal_strlit("2606:4700:4700::1111,2606:4700:4700::1001");
    reveal_strlit("Cloudflare Malware blocking");
    reveal_strlit("1.1.1.2,1.0.0.2");
    reveal_strlit("2606:4700:4700::1112,2606:4700:4700::1002");
    reveal_strlit("Cloudflare Malware and adult content blocking");
    reveal_strlit("1.1.1.3,1.0.0.3");
    reveal_strlit("2606:4700:4700::1113,2606:4700:4700::1003");
    reveal_strlit("Cisco Umbrella(OpenDNS)");
    reveal_strlit("208.67.222.222,208.67.220.220");
    reveal_strlit("2620:119:35::35,2620:119:53::53");
    reveal_strlit("DNS.Watch");
    reveal_strlit("84.200.69.80,84.200.70.40");
    reveal_strlit("2001:1608:10:25::1c04:b12f,2001:1608:10:25::9249:d69b");
    reveal_strlit("GCore");
    reveal_strlit("95.85.95.85,2.56.220.2");
    reveal_strlit("2a03:90c0:999d::1,2a03:90c0:9992::1");
    reveal_strlit("Google");
    reveal_strlit("8.8.8.8,8.8.4.4");
    reveal_strlit("2001:4860:4860::8888,2001:4860:4860::8844");
    reveal_strlit("Quad9");
    reveal_strlit("9.9.9.9,149.112.112.112");
    reveal_strlit("2620:fe::fe,2620:fe::9");
    reveal_strlit("Yandex");
    reveal_strlit("77.88.8.8,77.88.8.1");
    reveal_strlit("2a02:6b8::feed:0ff,2a02:6b8:0:1::feed:0ff");
    reveal_strlit("Yandex Malware blocking");
    reveal_strlit("77.88.8.88,77.88.8.2");
    reveal_strlit("2a02:6b8::feed:bad,2a02:6b8:0:1::feed:bad");
    reveal_strlit("Yandex Malware and adult content blocking");
    reveal_strlit("77.88.8.7,77.88.8.3");
    reveal_strlit("2a02:6b8::feed:a11,2a02:6b8:0:1::feed:a11");
    reveal_strlit("阿里云公共DNS (AliDNS)");
    reveal_strlit("223.5.5.5,223.6.6.6");
    reveal_strlit("2400:3200::1,2400:3200:baba::1");
    reveal_strlit("腾讯云 DNSPod (Tencent)");
    reveal_strlit("119.29.29.29,119.28.28.28");
    reveal_strlit("2402:4e00::,2402:4e00:1::");
    assert forall|i: int, j: int| 0 <= i < j < dns_server_count() implies {
        &&& text_key(dns_server_entry(i).name) != text_key(dns_server_entry(j).name)
        &&& text_key(dns_server_entry(i).ipv4) != text_key(dns_server_entry(j).ipv4)
        &&& text_key(dns_server_entry(i).ipv6) != text_key(dns_server_entry(j).ipv6)
    } by {}
    assert forall|i: int| 0 <= i < dns_server_count() implies dns_server_entry(i).ipv4.len() > 0
        && dns_server_entry(i).ipv6.len() > 0 by {}
}

/// The names of the servers, in table order.
pub open spec fn server_names(table: Seq<DnsServerView>) -> Seq<Seq<char>> {
    table.map_values(|e: DnsServerView| e.name)
}

/// Whether a server is the one whose addresses a connection uses: the
/// connection's IPv4 list, when non-empty, equals the server's, or its IPv6
/// list, when non-empty, equals the server's.
pub open spec fn server_matches(server: DnsServerView, ipv4: Seq<char>, ipv6: Seq<char>) -> bool {
    (ipv4.len() > 0 && ipv4 == server.ipv4) || (ipv6.len() > 0 && ipv6 == server.ipv6)
}

/// The first index at or after `start` of a server that matches the
/// addresses, if any.
pub open spec fn first_match_from(
    table: Seq<DnsServerView>,
    ipv4: Seq<char>,
    ipv6: Seq<char>,
    start: int,
) -> Option<int>
    decreases table.len() - start,
{
    if start < 0 || start >= table.len() {
        None
    } else if server_matches(table[start], ipv4, ipv6) {
        Some(start)
    } else {
        first_match_from(table, ipv4, ipv6, start + 1)
    }
}

/// The name of the server that is selected when nothing else applies.
pub open spec fn fallback_server_name() -> Seq<char> {
    "Cloudflare"@
}

/// The index of the fallback server in the table.
pub open spec fn fallback_server_index() -> int {
    match first_index_of(server_names(dns_server_table()), fallback_server_name()) {
        Some(i) => i,
        None => 0,
    }
}

/// The server index that is preselected for a connection whose DNS
/// addresses are `dns` (`None` when they could not be read): the first
/// server that matches them, else the fallback server.
pub open spec fn selection_index(dns: Option<(Seq<char>, Seq<char>)>) -> int {
    match dns {
        Some((ipv4, ipv6)) => match first_match_from(dns_server_table(), ipv4, ipv6, 0) {
            Some(i) => i,
            None => fallback_server_index(),
        },
        None => fallback_server_index(),
    }
}

/// The abstract value of the DNS addresses read for a connection.
pub open spec fn dns_view(dns: Option<(String, String)>) -> Option<(Seq<char>, Seq<char>)> {
    match dns {
        Some((ipv4, ipv6)) => Some((ipv4@, ipv6@)),
        None => None,
    }
}

/// The addresses of the server with the given name, if the table has one.
pub open spec fn server_addresses(name: Seq<char>) -> Option<(Seq<char>, Seq<char>)> {
    match first_index_of(server_names(dns_server_table()), name) {
        Some(i) => Some((dns_server_table()[i].ipv4, dns_server_table()[i].ipv6)),
        None => None,
    }
}

impl DnsServer {
    /// A table entry made of the three strings.
    pub fn from_strs(name: &str, ipv4: &str, ipv6: &str) -> (server: DnsServer)
        ensures
            server@ == entry(name, ipv4, ipv6),
    {
        DnsServer { name: name.to_owned(), ipv4: ipv4.to_owned(), ipv6: ipv6.to_owned() }
    }
}

/// The DNS servers offered, in the order in which they are shown.
pub fn dns_servers() -> (table: Vec<DnsServer>)
    ensures
        servers_view(table@) == dns_server_table(),
{
    let mut table: Vec<DnsServer> = Vec::new();
    table.push(DnsServer::from_strs("AdGuard", "94.140.14.14,94.140.15.15", "2a10:50c0::ad1:ff,2a10:50c0::ad2:ff"));
    table.push(DnsServer::from_strs("AdGuard Family Protection", "94.140.14.15,94.140.15.16", "2a10:50c0::bad1:ff,2a10:50c0::bad2:ff"));
    table.push(DnsServer::from_strs("Cloudflare", "1.1.1.1,1.0.0.1", "2606:4700:4700::1111,2606:4700:4700::1001"));
    table.push(DnsServer::from_strs("Cloudflare Malware blocking", "1.1.1.2,1.0.0.2", "2606:4700:4700::1112,2606:4700:4700::1002"));
    table.push(DnsServer::from_strs("Cloudflare Malware and adult content blocking", "1.1.1.3,1.0.0.3", "2606:4700:4700::1113,2606:4700:4700::1003"));
    table.push(DnsServer::from_strs("Cisco Umbrella(OpenDNS)", "208.67.222.222,208.67.220.220", "2620:119:35::35,2620:119:53::53"));
    table.push(DnsServer::from_strs("DNS.Watch", "84.200.69.80,84.200.70.40", "2001:1608:10:25::1c04:b12f,2001:1608:10:25::9249:d69b"));
    table.push(DnsServer::from_strs("GCore", "95.85.95.85,2.56.220.2", "2a03:90c0:999d::1,2a03:90c0:9992::1"));
    table.push(DnsServer::from_strs("Google", "8.8.8.8,8.8.4.4", "2001:4860:4860::8888,2001:4860:4860::8844"));
    table.push(DnsServer::from_strs("Quad9", "9.9.9.9,149.112.112.112", "2620:fe::fe,2620:fe::9"));
    table.push(DnsServer::from_strs("Yandex", "77.88.8.8,77.88.8.1", "2a02:6b8::feed:0ff,2a02:6b8:0:1::feed:0ff"));
    table.push(DnsServer::from_strs("Yandex Malware blocking", "77.88.8.88,77.88.8.2", "2a02:6b8::feed:bad,2a02:6b8:0:1::feed:bad"));
    table.push(DnsServer::from_strs("Yandex Malware and adult content blocking", "77.88.8.7,77.88.8.3", "2a02:6b8::feed:a11,2a02:6b8:0:1::feed:a11"));
    table.push(DnsServer::from_strs("阿里云公共DNS (AliDNS)", "223.5.5.5,223.6.6.6", "2400:3200::1,2400:3200:baba::1"));
    table.push(DnsServer::from_strs("腾讯云 DNSPod (Tencent)", "119.29.29.29,119.28.28.28", "2402:4e00::,2402:4e00:1::"));
    assert(servers_view(table@) =~= dns_server_table());
    table
}

/// The names of the DNS servers, in the order in which they are shown.
pub fn dns_server_names() -> (names: Vec<String>)
    ensures
        strings_view(names@) == server_names(dns_server_table()),
{
    let table = dns_servers();
    let mut names: Vec<String> = Vec::new();
    let mut i: usize = 0;
    while i < table.len()
        invariant
            i <= table.len(),
            servers_view(table@) == dns_server_table(),
            strings_view(names@) == server_names(dns_server_table()).take(i as int),
        decreases table.len() - i,
    {
        assert(table@[i as int]@ == dns_server_table()[i as int]);
        names.push(table[i].name.clone());
        assert(server_names(dns_server_table()).take(i + 1) =~= server_names(
            dns_server_table(),
        ).take(i as int).push(table@[i as int].name@));
        assert(strings_view(names@) =~= server_names(dns_server_table()).take(i + 1));
        i = i + 1;
    }
    assert(server_names(dns_server_table()).take(i as int) =~= server_names(dns_server_table()));
    names
}

/// The name of the stack page that a navigation button leads to: the
/// button's widget name followed by `page`.
pub fn stack_page_name(widget_name: &str) -> (page: String)
    ensures
        page@ == widget_name@ + "page"@,
{
    let mut page = widget_name.to_owned();
    page.append("page");
    page
}

/// The widget name of the connections section of the stack page
/// `child_name`.
pub fn connections_section_name(child_name: &str) -> (name: String)
    ensures
        name@ == child_name@ + "_connections"@,
{
    let mut name = child_name.to_owned();
    name.append("_connections");
    name
}

/// Where server `i` matches the addresses and none of `start..i` does, the
/// search from `start` finds `i`.
proof fn lemma_first_match_reaches(
    table: Seq<DnsServerView>,
    ipv4: Seq<char>,
    ipv6: Seq<char>,
    start: int,
    i: int,
)
    requires
        0 <= start <= i < table.len(),
        server_matches(table[i], ipv4, ipv6),
        forall|j: int| start <= j < i ==> !server_matches(#[trigger] table[j], ipv4, ipv6),
    ensures
        first_match_from(table, ipv4, ipv6, start) == Some(i),
    decreases i - start,
{
    if start < i {
        lemma_first_match_reaches(table, ipv4, ipv6, start + 1, i);
    }
}

/// The fallback server is "Cloudflare", the third server of the table.
pub proof fn lemma_fallback_server()
    ensures
        first_index_of(server_names(dns_server_table()), fallback_server_name()) == Some(2int),
        fallback_server_index() == 2,
        dns_server_table()[fallback_server_index()].name == fallback_server_name(),
{
    reveal_strlit("AdGuard");
    reveal_strlit("AdGuard Family Protection");
    reveal_strlit("Cloudflare");
    let names = server_names(dns_server_table());
    assert(text_key(names[0]) != text_key(fallback_server_name()));
    assert(text_key(names[1]) != text_key(fallback_server_name()));
    lemma_first_index_reaches(names, fallback_server_name(), 0, 2);
}

/// The server index preselected for a connection whose DNS addresses are
/// `dns`: the first server of the table that matches them, and the fallback
/// server ("Cloudflare") when none does or when the addresses could not be
/// read. It is always a valid index into the table.
pub fn selection_index_for_connection(dns: Option<(String, String)>) -> (index: usize)
    ensures
        index == selection_index(dns_view(dns)),
        index < dns_server_count(),
{
    let table = dns_servers();
    proof {
        lemma_fallback_server();
    }
    let ghost d = dns_view(dns);
    if let Some((ipv4, ipv6)) = dns {
        let ghost t = dns_server_table();
        let mut i: usize = 0;
        while i < table.len()
            invariant
                i <= table.len(),
                servers_view(table@) == t,
                t == dns_server_table(),
                d == Some((ipv4@, ipv6@)),
                d == dns_view(dns),
                first_match_from(t, ipv4@, ipv6@, 0) == first_match_from(t, ipv4@, ipv6@, i as int),
            decreases table.len() - i,
        {
            assert(table@[i as int]@ == t[i as int]);
            if (!ipv4.as_str().is_empty() && ipv4 == table[i].ipv4) || (!ipv6.as_str().is_empty()
                && ipv6 == table[i].ipv6) {
                assert(server_matches(t[i as int], ipv4@, ipv6@));
                assert(first_match_from(t, ipv4@, ipv6@, i as int) == Some(i as int));
                assert(d == Some((ipv4@, ipv6@)));
                return i;
            }
            i = i + 1;
        }
    }
    2
}

/// The IPv4 and IPv6 addresses of the server named `name`, or `None` when
/// the table has no server of that name.
pub fn dns_addresses_for_server(name: &str) -> (addresses: Option<(String, String)>)
    ensures
        match addresses {
            Some((ipv4, ipv6)) => server_addresses(name@) == Some((ipv4@, ipv6@)),
            None => server_addresses(name@) is None,
        },
{
    let table = dns_servers();
    let names = dns_server_names();
    match crate::text::position_of_string(&names, name) {
        Some(i) => {
            assert(table@[i as int]@ == dns_server_table()[i as int]);
            let ipv4 = table[i].ipv4.clone();
            let ipv6 = table[i].ipv6.clone();
            assert(server_addresses(name@) == Some((ipv4@, ipv6@)));
            Some((ipv4, ipv6))
        },
        None => None,
    }
}

/// Re-reading the addresses of server `i` selects server `i` again: the
/// preselection shown for a connection is the server whose addresses the
/// connection uses.
pub proof fn lemma_selection_round_trip(i: int)
    requires
        0 <= i < dns_server_count(),
    ensures
        selection_index(Some((dns_server_table()[i].ipv4, dns_server_table()[i].ipv6))) == i,
{
    lemma_dns_table_distinct();
    let t = dns_server_table();
    assert forall|j: int| 0 <= j < i implies !server_matches(
        #[trigger] t[j],
        t[i].ipv4,
        t[i].ipv6,
    ) by {
        assert(t[j].ipv4 != t[i].ipv4);
        assert(t[j].ipv6 != t[i].ipv6);
    }
    lemma_first_match_reaches(t, t[i].ipv4, t[i].ipv6, 0, i);
}

/// Looking up the name of server `i` gives the addresses of server `i`.
pub proof fn lemma_addresses_round_trip(i: int)
    requires
        0 <= i < dns_server_count(),
    ensures
        first_index_of(server_names(dns_server_table()), dns_server_table()[i].name) == Some(i),
        server_addresses(dns_server_table()[i].name) == Some(
            (dns_server_table()[i].ipv4, dns_server_table()[i].ipv6),
        ),
{
    lemma_dns_table_distinct();
    let t = dns_server_table();
    let names = server_names(t);
    assert forall|j: int| 0 <= j < i implies names[j] != names[i] by {
        assert(t[j].name != t[i].name);
    }
    lemma_first_index_reaches(names, names[i], 0, i);
}

/// Applying a server to a connection and reading the connection's addresses
/// back selects that same server: for every name of the table, the
/// selection made from the addresses looked up by that name is the index of
/// the name.
pub proof fn lemma_apply_then_select(name: Seq<char>)
    requires
        server_names(dns_server_table()).contains(name),
    ensures
        first_index_of(server_names(dns_server_table()), name) matches Some(i) && selection_index(
            server_addresses(name),
        ) == i,
{
    let t = dns_server_table();
    let names = server_names(t);
    let i = choose|i: int| 0 <= i < names.len() && names[i] == name;
    assert(t[i].name == name);
    lemma_addresses_round_trip(i);
    lemma_selection_round_trip(i);
}

/// When no server of the table exists after `start` that matches, the
/// search from `start` finds nothing.
proof fn lemma_first_match_none(table: Seq<DnsServerView>, ipv4: Seq<char>, ipv6: Seq<char>, start: int)
    requires
        0 <= start <= table.len(),
        forall|j: int| start <= j < table.len() ==> !server_matches(#[trigger] table[j], ipv4, ipv6),
    ensures
        first_match_from(table, ipv4, ipv6, start) is None,
    decreases table.len() - start,
{
    if start < table.len() {
        lemma_first_match_none(table, ipv4, ipv6, start + 1);
    }
}

/// A non-empty IPv4 list equal to that of server `i` selects server `i`,
/// whatever the IPv6 list, when no earlier server has that IPv4 list or
/// (for a non-empty IPv6 list) that IPv6 list.
pub proof fn lemma_selection_by_ipv4(ipv4: Seq<char>, ipv6: Seq<char>, i: int)
    requires
        0 <= i < dns_server_table().len(),
        ipv4.len() > 0,
        ipv4 == dns_server_table()[i].ipv4,
        forall|j: int|
            0 <= j < i ==> dns_server_table()[j].ipv4 != ipv4 && (ipv6.len() == 0
                || dns_server_table()[j].ipv6 != ipv6),
    ensures
        selection_index(Some((ipv4, ipv6))) == i,
{
    lemma_first_match_reaches(dns_server_table(), ipv4, ipv6, 0, i);
}

/// A non-empty IPv6 list equal to that of server `i` selects server `i`,
/// whatever the IPv4 list, when no earlier server has that IPv6 list or
/// (for a non-empty IPv4 list) that IPv4 list.
pub proof fn lemma_selection_by_ipv6(ipv4: Seq<char>, ipv6: Seq<char>, i: int)
    requires
        0 <= i < dns_server_table().len(),
        ipv6.len() > 0,
        ipv6 == dns_server_table()[i].ipv6,
        forall|j: int|
            0 <= j < i ==> dns_server_table()[j].ipv6 != ipv6 && (ipv4.len() == 0
                || dns_server_table()[j].ipv4 != ipv4),
    ensures
        selection_index(Some((ipv4, ipv6))) == i,
{
    lemma_first_match_reaches(dns_server_table(), ipv4, ipv6, 0, i);
}

/// When no server has the connection's non-empty IPv4 list or its
/// non-empty IPv6 list, and when the lists could not be read, the third
/// server, "Cloudflare", is selected.
pub proof fn lemma_selection_without_match(ipv4: Seq<char>, ipv6: Seq<char>)
    requires
        forall|j: int|
            0 <= j < dns_server_table().len() ==> (ipv4.len() == 0 || dns_server_table()[j].ipv4
                != ipv4) && (ipv6.len() == 0 || dns_server_table()[j].ipv6 != ipv6),
    ensures
        selection_index(Some((ipv4, ipv6))) == 2,
        selection_index(None) == 2,
        dns_server_table()[2].name == "Cloudflare"@,
{
    lemma_fallback_server();
    lemma_first_match_none(dns_server_table(), ipv4, ipv6, 0);
}

/// The servers offered, entry by entry.
pub proof fn lemma_dns_table_entries()
    ensures
        dns_server_table().len() == 15,
        dns_server_table()[0] == (DnsServerView { name: "AdGuard"@, ipv4: "94.140.14.14,94.140.15.15"@, ipv6: "2a10:50c0::ad1:ff,2a10:50c0::ad2:ff"@ }),
        dns_server_table()[1] == (DnsServerView { name: "AdGuard Family Protection"@, ipv4: "94.140.14.15,94.140.15.16"@, ipv6: "2a10:50c0::bad1:ff,2a10:50c0::bad2:ff"@ }),
        dns_server_table()[2] == (DnsServerView { name: "Cloudflare"@, ipv4: "1.1.1.1,1.0.0.1"@, ipv6: "2606:4700:4700::1111,2606:4700:4700::1001"@ }),
        dns_server_table()[3] == (DnsServerView { name: "Cloudflare Malware blocking"@, ipv4: "1.1.1.2,1.0.0.2"@, ipv6: "2606:4700:4700::1112,2606:4700:4700::1002"@ }),
        dns_server_table()[4] == (DnsServerView { name: "Cloudflare Malware and adult content blocking"@, ipv4: "1.1.1.3,1.0.0.3"@, ipv6: "2606:4700:4700::1113,2606:4700:4700::1003"@ }),
        dns_server_table()[5] == (DnsServerView { name: "Cisco Umbrella(OpenDNS)"@, ipv4: "208.67.222.222,208.67.220.220"@, ipv6: "2620:119:35::35,2620:119:53::53"@ }),
        dns_server_table()[6] == (DnsServerView { name: "DNS.Watch"@, ipv4: "84.200.69.80,84.200.70.40"@, ipv6: "2001:1608:10:25::1c04:b12f,2001:1608:10:25::9249:d69b"@ }),
        dns_server_table()[7] == (DnsServerView { name: "GCore"@, ipv4: "95.85.95.85,2.56.220.2"@, ipv6: "2a03:90c0:999d::1,2a03:90c0:9992::1"@ }),
        dns_server_table()[8] == (DnsServerView { name: "Google"@, ipv4: "8.8.8.8,8.8.4.4"@, ipv6: "2001:4860:4860::8888,2001:4860:4860::8844"@ }),
        dns_server_table()[9] == (DnsServerView { name: "Quad9"@, ipv4: "9.9.9.9,149.112.112.112"@, ipv6: "2620:fe::fe,2620:fe::9"@ }),
        dns_server_table()[10] == (DnsServerView { name: "Yandex"@, ipv4: "77.88.8.8,77.88.8.1"@, ipv6: "2a02:6b8::feed:0ff,2a02:6b8:0:1::feed:0ff"@ }),
        dns_server_table()[11] == (DnsServerView { name: "Yandex Malware blocking"@, ipv4: "77.88.8.88,77.88.8.2"@, ipv6: "2a02:6b8::feed:bad,2a02:6b8:0:1::feed:bad"@ }),
        dns_server_table()[12] == (DnsServerView { name: "Yandex Malware and adult content blocking"@, ipv4: "77.88.8.7,77.88.8.3"@, ipv6: "2a02:6b8::feed:a11,2a02:6b8:0:1::feed:a11"@ }),
        dns_server_table()[13] == (DnsServerView { name: "阿里云公共DNS (AliDNS)"@, ipv4: "223.5.5.5,223.6.6.6"@, ipv6: "2400:3200::1,2400:3200:baba::1"@ }),
        dns_server_table()[14] == (DnsServerView { name: "腾讯云 DNSPod (Tencent)"@, ipv4: "119.29.29.29,119.28.28.28"@, ipv6: "2402:4e00::,2402:4e00:1::"@ }),
{
}

/// Looking up each server by name gives its own IPv4 and IPv6 lists.
pub proof fn lemma_dns_addresses_by_name()
    ensures
        server_addresses("AdGuard"@) == Some(("94.140.14.14,94.140.15.15"@, "2a10:50c0::ad1:ff,2a10:50c0::ad2:ff"@)),
        server_addresses("AdGuard Family Protection"@) == Some(("94.140.14.15,94.140.15.16"@, "2a10:50c0::bad1:ff,2a10:50c0::bad2:ff"@)),
        server_addresses("Cloudflare"@) == Some(("1.1.1.1,1.0.0.1"@, "2606:4700:4700::1111,2606:4700:4700::1001"@)),
        server_addresses("Cloudflare Malware blocking"@) == Some(("1.1.1.2,1.0.0.2"@, "2606:4700:4700::1112,2606:4700:4700::1002"@)),
        server_addresses("Cloudflare Malware and adult content blocking"@) == Some(("1.1.1.3,1.0.0.3"@, "2606:4700:4700::1113,2606:4700:4700::1003"@)),
        server_addresses("Cisco Umbrella(OpenDNS)"@) == Some(("208.67.222.222,208.67.220.220"@, "2620:119:35::35,2620:119:53::53"@)),
        server_addresses("DNS.Watch"@) == Some(("84.200.69.80,84.200.70.40"@, "2001:1608:10:25::1c04:b12f,2001:1608:10:25::9249:d69b"@)),
        server_addresses("GCore"@) == Some(("95.85.95.85,2.56.220.2"@, "2a03:90c0:999d::1,2a03:90c0:9992::1"@)),
        server_addresses("Google"@) == Some(("8.8.8.8,8.8.4.4"@, "2001:4860:4860::8888,2001:4860:4860::8844"@)),
        server_addresses("Quad9"@) == Some(("9.9.9.9,149.112.112.112"@, "2620:fe::fe,2620:fe::9"@)),
        server_addresses("Yandex"@) == Some(("77.88.8.8,77.88.8.1"@, "2a02:6b8::feed:0ff,2a02:6b8:0:1::feed:0ff"@)),
        server_addresses("Yandex Malware blocking"@) == Some(("77.88.8.88,77.88.8.2"@, "2a02:6b8::feed:bad,2a02:6b8:0:1::feed:bad"@)),
        server_addresses("Yandex Malware and adult content blocking"@) == Some(("77.88.8.7,77.88.8.3"@, "2a02:6b8::feed:a11,2a02:6b8:0:1::feed:a11"@)),
        server_addresses("阿里云公共DNS (AliDNS)"@) == Some(("223.5.5.5,223.6.6.6"@, "2400:3200::1,2400:3200:baba::1"@)),
        server_addresses("腾讯云 DNSPod (Tencent)"@) == Some(("119.29.29.29,119.28.28.28"@, "2402:4e00::,2402:4e00:1::"@)),
{
    lemma_addresses_round_trip(0);
    lemma_addresses_round_trip(1);
    lemma_addresses_round_trip(2);
    lemma_addresses_round_trip(3);
    lemma_addresses_round_trip(4);
    lemma_addresses_round_trip(5);
    lemma_addresses_round_trip(6);
    lemma_addresses_round_trip(7);
    lemma_addresses_round_trip(8);
    lemma_addresses_round_trip(9);
    lemma_addresses_round_trip(10);
    lemma_addresses_round_trip(11);
    lemma_addresses_round_trip(12);
    lemma_addresses_round_trip(13);
    lemma_addresses_round_trip(14);
}

} // verus!
