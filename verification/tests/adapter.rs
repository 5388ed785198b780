use dns_adapter::addr::{Endpoint, IpAddress};
use dns_adapter::adapter::{adapt_lookup, endpoints_with_placeholder_port};

#[test]
fn single_address_yields_single_endpoint() {
    // A resolver configured to answer one name with the single address 1.1.1.1.
    let a = IpAddress::V4(0x0101_0101);
    let r: Result<Vec<Endpoint>, String> = adapt_lookup(Ok(vec![a]));
    assert_eq!(r, Ok(vec![Endpoint { ip: a, port: 0 }]));
}

#[test]
fn addresses_keep_their_order() {
    let a1 = IpAddress::V4(0xc000_0201);
    let a2 = IpAddress::V6(0x2001_0db8_0000_0000_0000_0000_0000_0001);
    let a3 = IpAddress::V4(0x0a00_0001);
    let r: Result<Vec<Endpoint>, String> = adapt_lookup(Ok(vec![a1, a2, a3]));
    assert_eq!(
        r,
        Ok(vec![
            Endpoint { ip: a1, port: 0 },
            Endpoint { ip: a2, port: 0 },
            Endpoint { ip: a3, port: 0 },
        ])
    );
}

#[test]
fn empty_address_list_yields_no_endpoints() {
    let r: Result<Vec<Endpoint>, String> = adapt_lookup(Ok(vec![]));
    assert_eq!(r, Ok(vec![]));
}

#[test]
fn lookup_failure_surfaces_the_error_unaltered() {
    // A name the resolver cannot resolve: its own error comes back verbatim.
    let e = String::from("no records found for nonexistent.invalid.");
    let r: Result<Vec<Endpoint>, String> = adapt_lookup(Err(e.clone()));
    assert_eq!(r, Err(e));
}

#[test]
fn translation_attaches_placeholder_port_to_each_address() {
    let addrs = vec![IpAddress::V4(0x7f00_0001), IpAddress::V6(1)];
    let eps = endpoints_with_placeholder_port(addrs.clone());
    assert_eq!(eps.len(), addrs.len());
    for (i, ep) in eps.iter().enumerate() {
        assert_eq!(ep.ip, addrs[i]);
        assert_eq!(ep.port, 0);
    }
}

#[test]
fn placeholder_port_constructor_pairs_address_with_port_zero() {
    let a = IpAddress::V6(0xfe80 << 112);
    let ep = Endpoint::with_placeholder_port(a);
    assert_eq!(ep, Endpoint { ip: a, port: 0 });
}
