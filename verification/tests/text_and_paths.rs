use agentenv::env_vars::EnvVars;
use agentenv::ipv4::parse_ipv4;
use agentenv::ipv4::Ipv4Addr;
use agentenv::paths;
use agentenv::text;
use std::path::Path;

const PATHS: [&str; 38] = [
    "", "/", "//", ".", "..", "a", "a/", "/a", "/a/", "a/b", "/a/b", "//a//b//", "./a", "a/.",
    "a/./b", "a/..", "a/../b", "../a", "/..", "/../a", "/a/../..", "a/../../b", ".a", "a.b", "a.b.c",
    "/x/.hidden", "/x/y.tar.gz", "/x/..b", "/./a", "/x/y.",
    "/x/..b/", "..b", "...b", "/x/..bcd/", "a.bc//", "/x/a.bcdef/.", "..b/.", "x..",
];

fn lexically_plain(path: &Path) -> String {
    let mut plain = std::path::PathBuf::new();
    for component in path.components() {
        match component {
            std::path::Component::CurDir => {}
            std::path::Component::ParentDir => {
                plain.pop();
            }
            other => plain.push(other.as_os_str()),
        }
    }
    plain.display().to_string()
}

#[test]
fn paths_agree_with_the_standard_library() {
    for p in PATHS {
        let path = Path::new(p);
        assert_eq!(paths::is_absolute(p), path.is_absolute(), "{p:?}");
        assert_eq!(
            paths::file_name(p),
            path.file_name().map(|n| n.to_str().unwrap().to_string()),
            "file name of {p:?}"
        );
        assert_eq!(
            paths::parent(p),
            path.parent().map(|n| n.to_str().unwrap().to_string()),
            "parent of {p:?}"
        );
        assert_eq!(
            paths::lexically_normalize_path(p),
            lexically_plain(path),
            "{p:?}"
        );
        assert_eq!(
            paths::with_extension(p, "commit.tmp"),
            path.with_extension("commit.tmp").to_str().unwrap(),
            "extension of {p:?}"
        );
        for q in PATHS {
            let other = Path::new(q);
            assert_eq!(
                paths::join(p, q),
                path.join(other).to_str().unwrap(),
                "{p:?} {q:?}"
            );
            assert_eq!(
                paths::starts_with(p, q),
                path.starts_with(other),
                "{p:?} {q:?}"
            );
            assert_eq!(paths::same_path(p, q), path == other, "{p:?} {q:?}");
        }
        let once = paths::lexically_normalize_path(p);
        assert_eq!(paths::lexically_normalize_path(&once), once);
    }
}

#[test]
fn whitespace_is_that_of_the_standard_library() {
    for n in 0..=0x10FFFFu32 {
        if let Some(c) = char::from_u32(n) {
            assert_eq!(text::is_whitespace(c), c.is_whitespace(), "{n:x}");
        }
    }
}

#[test]
fn text_agrees_with_the_standard_library() {
    let samples = [
        "", " ", "a", " a ", "\u{3000}x\u{a0}", "A b  C\td", "ÄÖ aB", "a,b,,c", ",", "ready\n",
        "://", "x://y", "no such",
    ];
    for s in samples {
        assert_eq!(text::trim(s), s.trim());
        assert_eq!(text::to_ascii_lowercase(s), s.to_ascii_lowercase());
        assert_eq!(
            text::split_whitespace(s),
            s.split_whitespace().collect::<Vec<_>>()
        );
        assert_eq!(
            text::split_at_char(s, ','),
            s.split(',').collect::<Vec<_>>()
        );
        assert_eq!(text::split_at_char(s, ',').join(","), s);
        for t in samples {
            assert_eq!(text::contains(s, t), s.contains(t), "{s:?} {t:?}");
            assert_eq!(text::same(s, t), s == t);
            assert_eq!(text::concat(s, t), format!("{s}{t}"));
            assert_eq!(text::concat3(s, "-", t), format!("{s}-{t}"));
        }
    }
}

#[test]
fn numbers_are_written_as_the_standard_library_writes_them() {
    for n in [0u64, 1, 9, 10, 16, 255, 4096, 0x1000_0010, u64::MAX] {
        assert_eq!(text::decimal_of(n), n.to_string());
        assert_eq!(text::prefixed_hex_of(n), format!("{n:#x}"));
        assert_eq!(
            text::zero_pad(&text::decimal_of(n), 4),
            format!("{n:04}")
        );
    }
    for n in [0i64, 7, -7, i64::MIN, i64::MAX] {
        assert_eq!(text::signed_decimal_of(n), n.to_string());
    }
    for n in [0u128, 10, u64::MAX as u128 * 1000, u128::MAX] {
        assert_eq!(text::decimal_of_u128(n), n.to_string());
    }
}

#[test]
fn addresses_are_read_and_written() {
    for bad in [
        "256.1.1.1", "1.2.3", "1.2.3.4.5", "01.2.3.4", "1.2.3.04", "", "....", "+1.2.3.4",
        "1.2.3.4 ", "::1", "0001.2.3.4", "1.2.3.a", "1.2.3.-1", "00.0.0.0",
    ] {
        assert_eq!(parse_ipv4(bad), None, "{bad:?}");
    }
    assert_eq!(parse_ipv4("1.2.3.4"), Some(Ipv4Addr::new(1, 2, 3, 4)));
    assert_eq!(
        parse_ipv4("255.255.255.255"),
        Some(Ipv4Addr::new(255, 255, 255, 255))
    );
    for a in 0..=255u8 {
        let ip = Ipv4Addr::new(a, 1, 20, 255 - a);
        assert_eq!(ip.to_text(), format!("{}.1.20.{}", a, 255 - a));
        assert_eq!(parse_ipv4(&ip.to_text()), Some(ip));
        assert_eq!(ip.is_loopback(), a == 127);
        assert!(!ip.is_unspecified());
    }
    assert!(Ipv4Addr::new(0, 0, 0, 0).is_unspecified());
    assert_eq!(
        Ipv4Addr::new(10, 255, 255, 255).checked_offset(1),
        Some(Ipv4Addr::new(11, 0, 0, 0))
    );
    assert_eq!(Ipv4Addr::new(255, 255, 255, 255).checked_offset(1), None);
}

#[test]
fn variables_have_one_value_each() {
    let mut env = EnvVars::new();
    assert!(env.is_empty());
    env.insert("A".to_string(), "1".to_string());
    env.insert("B".to_string(), "2".to_string());
    env.insert("A".to_string(), "3".to_string());
    assert_eq!(env.get("A"), Some("3"));
    assert_eq!(env.get("C"), None);
    assert_eq!(env.pairs().len(), 2);
    let mut more = EnvVars::new();
    more.insert("B".to_string(), "9".to_string());
    more.insert("C".to_string(), "4".to_string());
    env.extend(&more);
    assert_eq!(env.get("B"), Some("9"));
    assert_eq!(env.get("C"), Some("4"));
    assert_eq!(env.get("A"), Some("3"));
    assert_eq!(env.pairs().len(), 3);
}
