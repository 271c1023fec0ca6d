use cachyos_hello::dns::{
    connections_section_name, dns_addresses_for_server, dns_server_names, dns_servers,
    selection_index_for_connection, stack_page_name,
};

fn dns(ipv4: &str, ipv6: &str) -> Option<(String, String)> {
    Some((ipv4.to_string(), ipv6.to_string()))
}

#[test]
fn table_has_fifteen_servers_in_order() {
    let names = dns_server_names();
    assert_eq!(names.len(), 15);
    assert_eq!(names[0], "AdGuard");
    assert_eq!(names[2], "Cloudflare");
    assert_eq!(names[8], "Google");
    assert_eq!(names[13], "阿里云公共DNS (AliDNS)");
    assert_eq!(names[14], "腾讯云 DNSPod (Tencent)");
    let table = dns_servers();
    assert_eq!(table.len(), 15);
    assert_eq!(table[9].name, "Quad9");
    assert_eq!(table[9].ipv4, "9.9.9.9,149.112.112.112");
    assert_eq!(table[9].ipv6, "2620:fe::fe,2620:fe::9");
}

#[test]
fn server_names_are_distinct() {
    let names = dns_server_names();
    for i in 0..names.len() {
        for j in (i + 1)..names.len() {
            assert_ne!(names[i], names[j]);
        }
    }
}

#[test]
fn unreadable_dns_falls_back_to_cloudflare() {
    assert_eq!(selection_index_for_connection(None), 2);
}

#[test]
fn unknown_dns_falls_back_to_cloudflare() {
    assert_eq!(selection_index_for_connection(dns("10.0.0.1", "fe80::1")), 2);
}

#[test]
fn empty_dns_falls_back_to_cloudflare() {
    // Empty address lists never match, even though no server has them.
    assert_eq!(selection_index_for_connection(dns("", "")), 2);
}

#[test]
fn ipv4_match_selects_server() {
    assert_eq!(selection_index_for_connection(dns("8.8.8.8,8.8.4.4", "")), 8);
}

#[test]
fn ipv6_match_selects_server() {
    assert_eq!(selection_index_for_connection(dns("", "2620:fe::fe,2620:fe::9")), 9);
}

#[test]
fn first_matching_server_wins() {
    // IPv4 of Yandex (10), IPv6 of AdGuard (0): the earlier server is chosen.
    assert_eq!(
        selection_index_for_connection(dns(
            "77.88.8.8,77.88.8.1",
            "2a10:50c0::ad1:ff,2a10:50c0::ad2:ff"
        )),
        0
    );
}

#[test]
fn partial_address_list_does_not_match() {
    assert_eq!(selection_index_for_connection(dns("8.8.8.8", "")), 2);
}

#[test]
fn every_server_is_selected_from_its_own_addresses() {
    let table = dns_servers();
    for (i, server) in table.iter().enumerate() {
        let addresses = dns_addresses_for_server(&server.name).unwrap();
        assert_eq!(addresses, (server.ipv4.clone(), server.ipv6.clone()));
        assert_eq!(selection_index_for_connection(Some(addresses)), i);
    }
}

#[test]
fn lookup_by_name() {
    assert_eq!(
        dns_addresses_for_server("Cloudflare"),
        Some((
            "1.1.1.1,1.0.0.1".to_string(),
            "2606:4700:4700::1111,2606:4700:4700::1001".to_string()
        ))
    );
    assert_eq!(dns_addresses_for_server("cloudflare"), None);
    assert_eq!(dns_addresses_for_server(""), None);
}

#[test]
fn page_names() {
    assert_eq!(stack_page_name("tweaksBrowser"), "tweaksBrowserpage");
    assert_eq!(
        connections_section_name("dnsConnectionsBrowserpage"),
        "dnsConnectionsBrowserpage_connections"
    );
}
