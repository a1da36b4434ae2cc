use cloudflare_ddns::address::{find_ipv4, AddressError, Ipv4Address, ResolvedAddress};

fn parse(text: &str) -> Result<Ipv4Address, AddressError> {
    Ipv4Address::parse(text)
}

#[test]
fn parses_dotted_decimal() {
    assert_eq!(parse("1.2.3.4"), Ok(Ipv4Address(1, 2, 3, 4)));
    assert_eq!(parse("5.6.7.8"), Ok(Ipv4Address(5, 6, 7, 8)));
    assert_eq!(parse("192.168.0.1"), Ok(Ipv4Address(192, 168, 0, 1)));
    assert_eq!(parse("10.20.30.40"), Ok(Ipv4Address(10, 20, 30, 40)));
}

#[test]
fn parses_the_extremes() {
    assert_eq!(parse("0.0.0.0"), Ok(Ipv4Address(0, 0, 0, 0)));
    assert_eq!(parse("255.255.255.255"), Ok(Ipv4Address(255, 255, 255, 255)));
    assert_eq!(parse("9.10.99.100"), Ok(Ipv4Address(9, 10, 99, 100)));
    assert_eq!(parse("199.200.249.250"), Ok(Ipv4Address(199, 200, 249, 250)));
}

#[test]
fn rejects_octets_above_255() {
    assert_eq!(parse("256.1.1.1"), Err(AddressError::Malformed));
    assert_eq!(parse("1.1.1.256"), Err(AddressError::Malformed));
    assert_eq!(parse("1.300.1.1"), Err(AddressError::Malformed));
    assert_eq!(parse("1.1.999.1"), Err(AddressError::Malformed));
    assert_eq!(parse("1.1.1.1000"), Err(AddressError::Malformed));
}

#[test]
fn rejects_leading_zeros() {
    assert_eq!(parse("01.2.3.4"), Err(AddressError::Malformed));
    assert_eq!(parse("1.02.3.4"), Err(AddressError::Malformed));
    assert_eq!(parse("1.2.003.4"), Err(AddressError::Malformed));
    assert_eq!(parse("1.2.3.00"), Err(AddressError::Malformed));
}

#[test]
fn rejects_a_wrong_number_of_octets() {
    assert_eq!(parse(""), Err(AddressError::Malformed));
    assert_eq!(parse("1"), Err(AddressError::Malformed));
    assert_eq!(parse("1.2"), Err(AddressError::Malformed));
    assert_eq!(parse("1.2.3"), Err(AddressError::Malformed));
    assert_eq!(parse("1.2.3.4.5"), Err(AddressError::Malformed));
}

#[test]
fn rejects_misplaced_dots() {
    assert_eq!(parse(".1.2.3.4"), Err(AddressError::Malformed));
    assert_eq!(parse("1.2.3.4."), Err(AddressError::Malformed));
    assert_eq!(parse("1..2.3"), Err(AddressError::Malformed));
    assert_eq!(parse("1.2.3."), Err(AddressError::Malformed));
    assert_eq!(parse("..."), Err(AddressError::Malformed));
}

#[test]
fn rejects_what_is_not_a_digit() {
    assert_eq!(parse("a.b.c.d"), Err(AddressError::Malformed));
    assert_eq!(parse("1.2.3.4\n"), Err(AddressError::Malformed));
    assert_eq!(parse(" 1.2.3.4"), Err(AddressError::Malformed));
    assert_eq!(parse("1.2.3.4 "), Err(AddressError::Malformed));
    assert_eq!(parse("1,2,3,4"), Err(AddressError::Malformed));
    assert_eq!(parse("+1.2.3.4"), Err(AddressError::Malformed));
    assert_eq!(parse("1.2.3.-4"), Err(AddressError::Malformed));
    assert_eq!(parse("::1"), Err(AddressError::Malformed));
    assert_eq!(parse("<html>"), Err(AddressError::Malformed));
}

#[test]
fn rejects_text_outside_ascii() {
    assert_eq!(parse("1.2.3.\u{ff14}"), Err(AddressError::Malformed));
    assert_eq!(parse("\u{661}.\u{662}.\u{663}.\u{664}"), Err(AddressError::Malformed));
    assert_eq!(parse("1.2.3.4\u{e9}"), Err(AddressError::Malformed));
}

#[test]
fn a_failed_parse_gives_no_zero_address() {
    let parsed = parse("not an address");
    assert!(parsed.is_err());
    assert_ne!(parsed, Ok(Ipv4Address(0, 0, 0, 0)));
}

#[test]
fn writes_dotted_decimal() {
    assert_eq!(Ipv4Address(1, 2, 3, 4).to_text(), "1.2.3.4");
    assert_eq!(Ipv4Address(0, 0, 0, 0).to_text(), "0.0.0.0");
    assert_eq!(Ipv4Address(255, 255, 255, 255).to_text(), "255.255.255.255");
    assert_eq!(Ipv4Address(10, 0, 100, 9).to_text(), "10.0.100.9");
    assert_eq!(Ipv4Address(109, 110, 99, 201).to_text(), "109.110.99.201");
}

#[test]
fn text_survives_reading_and_writing() {
    let texts = [
        "1.2.3.4",
        "0.0.0.0",
        "255.255.255.255",
        "127.0.0.1",
        "203.0.113.77",
        "10.100.9.99",
        "8.8.8.8",
    ];
    for text in texts {
        let address = parse(text).unwrap();
        assert_eq!(address.to_text(), text);
    }
}

#[test]
fn every_octet_survives_writing_and_reading() {
    for n in 0..=255u8 {
        let address = Ipv4Address(n, 255 - n, n / 2, n);
        let text = address.to_text();
        assert_eq!(text, format!("{}.{}.{}.{}", n, 255 - n, n / 2, n));
        assert_eq!(parse(&text), Ok(address));
    }
}

#[test]
fn new_and_octets_agree() {
    let address = Ipv4Address::new(192, 0, 2, 1);
    assert_eq!(address, Ipv4Address(192, 0, 2, 1));
    assert_eq!(address.octets(), [192, 0, 2, 1]);
}

#[test]
fn first_ipv4_address_is_found() {
    let a = Ipv4Address(1, 2, 3, 4);
    let b = Ipv4Address(5, 6, 7, 8);
    assert_eq!(find_ipv4(&vec![ResolvedAddress::V4(a), ResolvedAddress::V4(b)]), Some(a));
    assert_eq!(
        find_ipv4(&vec![ResolvedAddress::V6, ResolvedAddress::V4(b), ResolvedAddress::V4(a)]),
        Some(b)
    );
}

#[test]
fn no_ipv4_address_is_found_among_none() {
    assert_eq!(find_ipv4(&vec![]), None);
    assert_eq!(find_ipv4(&vec![ResolvedAddress::V6, ResolvedAddress::V6]), None);
}
