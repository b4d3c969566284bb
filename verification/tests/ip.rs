use rdap_core::ip::{common_block, parse_cidr, parse_ip, Cidr, IpAddr};

#[test]
fn ipv4_texts() {
    assert_eq!(parse_ip("10.1.2.3"), Some(IpAddr::V4(0x0a010203)));
    assert_eq!(parse_ip("0.0.0.0"), Some(IpAddr::V4(0)));
    assert_eq!(parse_ip("255.255.255.255"), Some(IpAddr::V4(u32::MAX)));
    for bad in ["", "1.2.3", "1.2.3.4.5", "256.1.1.1", "01.2.3.4", "1.2.3.", ".1.2.3", "1..2.3",
        "a.b.c.d", "1.2.3.4 ", " 1.2.3.4", "+1.2.3.4", "1.2.3.-4"]
    {
        assert_eq!(parse_ip(bad), None, "{bad:?}");
    }
}

#[test]
fn ipv6_texts() {
    assert_eq!(parse_ip("::"), Some(IpAddr::V6(0)));
    assert_eq!(parse_ip("::1"), Some(IpAddr::V6(1)));
    assert_eq!(parse_ip("1::"), Some(IpAddr::V6(1u128 << 112)));
    assert_eq!(
        parse_ip("2001:db8::1"),
        Some(IpAddr::V6(0x2001_0db8_0000_0000_0000_0000_0000_0001))
    );
    assert_eq!(
        parse_ip("2001:DB8:0:0:8:800:200C:417A"),
        Some(IpAddr::V6(0x2001_0db8_0000_0000_0008_0800_200c_417a))
    );
    assert_eq!(
        parse_ip("1:2:3:4:5:6:7:8"),
        Some(IpAddr::V6(0x0001_0002_0003_0004_0005_0006_0007_0008))
    );
    assert_eq!(
        parse_ip("1:2:3:4:5:6:7::"),
        Some(IpAddr::V6(0x0001_0002_0003_0004_0005_0006_0007_0000))
    );
    assert_eq!(
        parse_ip("::2:3:4:5:6:7:8"),
        Some(IpAddr::V6(0x0000_0002_0003_0004_0005_0006_0007_0008))
    );
    assert_eq!(
        parse_ip("1:2:3::6:7:8"),
        Some(IpAddr::V6(0x0001_0002_0003_0000_0000_0006_0007_0008))
    );
    assert_eq!(
        parse_ip("ffff:ffff:ffff:ffff:ffff:ffff:ffff:ffff"),
        Some(IpAddr::V6(u128::MAX))
    );
    for bad in ["", ":", ":1", "1:", ":::", "1:::2", "1::2::3", "1:2:3:4:5:6:7", "1:2:3:4:5:6:7:8:9",
        "1:2:3:4:5:6:7:8::", "::1:2:3:4:5:6:7:8", "12345::", "g::", "1:2:3:4:5:6:7:", ":1:2:3:4:5:6:7",
        "::1%eth0", "::ffff:1.2.3.4", " ::1"]
    {
        assert_eq!(parse_ip(bad), None, "{bad:?}");
    }
}

#[test]
fn cidr_texts() {
    assert_eq!(
        parse_cidr("10.0.0.0/8"),
        Some(Cidr { addr: IpAddr::V4(0x0a000000), prefix_len: 8 })
    );
    assert_eq!(parse_cidr("0.0.0.0/0"), Some(Cidr { addr: IpAddr::V4(0), prefix_len: 0 }));
    assert_eq!(
        parse_cidr("10.1.2.3/32"),
        Some(Cidr { addr: IpAddr::V4(0x0a010203), prefix_len: 32 })
    );
    assert_eq!(
        parse_cidr("2001:db8::/32"),
        Some(Cidr { addr: IpAddr::V6(0x2001_0db8 << 96), prefix_len: 32 })
    );
    assert_eq!(parse_cidr("::/128"), Some(Cidr { addr: IpAddr::V6(0), prefix_len: 128 }));
    for bad in ["10.0.0.0", "10.0.0.0/", "10.0.0.0/33", "10.0.0.0/08", "10.0.0.0/8/8", "/8",
        "::/129", "10.0.0.0/-1", "10.0.0/8", "10.0.0.0/ 8"]
    {
        assert_eq!(parse_cidr(bad), None, "{bad:?}");
    }
}

#[test]
fn covering() {
    let c = |s: &str| parse_cidr(s).unwrap();
    assert!(c("10.0.0.0/8").covers(&c("10.1.0.0/16")));
    assert!(c("10.0.0.0/8").covers(&c("10.255.255.255/32")));
    assert!(c("10.0.0.0/8").covers(&c("10.0.0.0/8")));
    assert!(!c("10.1.0.0/16").covers(&c("10.0.0.0/8")));
    assert!(!c("10.0.0.0/8").covers(&c("11.0.0.0/16")));
    assert!(c("0.0.0.0/0").covers(&c("203.0.113.0/24")));
    assert!(!c("0.0.0.0/0").covers(&c("::/0")));
    assert!(c("::/0").covers(&c("2001:db8::/32")));
    assert!(c("2001:db8::/32").covers(&c("2001:db8:ffff::/48")));
    assert!(!c("2001:db8::/32").covers(&c("2001:db9::/48")));
    // host bits of the key do not count
    assert!(c("10.9.9.9/8").covers(&c("10.1.0.0/16")));
    assert!(!Cidr { addr: IpAddr::V4(0), prefix_len: 33 }.covers(&c("0.0.0.0/32")));
    assert_eq!(Cidr::host(IpAddr::V4(7)), Cidr { addr: IpAddr::V4(7), prefix_len: 32 });
    assert_eq!(Cidr::host(IpAddr::V6(7)), Cidr { addr: IpAddr::V6(7), prefix_len: 128 });
}

#[test]
fn smallest_common_block() {
    let ip = |s: &str| parse_ip(s).unwrap();
    assert_eq!(common_block(&ip("10.0.0.0"), &ip("10.0.3.255")).prefix_len, 22);
    assert_eq!(common_block(&ip("10.0.0.0"), &ip("10.0.0.0")).prefix_len, 32);
    assert_eq!(common_block(&ip("0.0.0.0"), &ip("255.255.255.255")).prefix_len, 0);
    assert_eq!(common_block(&ip("10.0.0.1"), &ip("10.0.0.2")).prefix_len, 30);
    assert_eq!(common_block(&ip("2001:db8::"), &ip("2001:db8:ffff:ffff:ffff:ffff:ffff:ffff")).prefix_len, 32);
    assert_eq!(common_block(&ip("::"), &ip("::1")).prefix_len, 127);
}
