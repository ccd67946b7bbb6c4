//! Texts, maps, addresses, names and documents.

use sleepypods_control_plane::auth::{
    BearerToken, CallerRole, InvalidStaticBearerTokens, StaticBearerTokens,
};
use sleepypods_control_plane::backend::{BackendAddress, BackendEndpoint};
use sleepypods_control_plane::config::{PostgresStoreConfig, MAX_CONNECTIONS};
use sleepypods_control_plane::duration::Duration;
use sleepypods_control_plane::ids::{Generation, InstanceId};
use sleepypods_control_plane::json::Json;
use sleepypods_control_plane::kube_materializer::{
    delete_outcome, is_not_found, mutation_error, next_poll, pvc_phase_is_bound,
    split_api_version, KubeFailure, KubeFailureKind,
};
use sleepypods_control_plane::kubernetes_name::{is_dns_label, render_instance_scoped_name};
use sleepypods_control_plane::net::{parse_ip, parse_socket, socket_text, IpAddr};
use sleepypods_control_plane::string_map::StringMap;
use sleepypods_control_plane::target::MaterializationTarget;
use sleepypods_control_plane::text::{
    decimal_text, parse_u64, shorten, signed_decimal_text, to_ascii_small, trim,
    wide_decimal_text,
};
use sleepypods_control_plane::yaml::read_yaml;

#[test]
fn numbers_are_written_and_read() {
    assert_eq!(decimal_text(0), "0");
    assert_eq!(decimal_text(u64::MAX), u64::MAX.to_string());
    assert_eq!(wide_decimal_text(u128::MAX), u128::MAX.to_string());
    assert_eq!(signed_decimal_text(i64::MIN), i64::MIN.to_string());
    for (text, value) in [
        ("0", Some(0)),
        ("+7", Some(7)),
        ("007", Some(7)),
        ("18446744073709551615", Some(u64::MAX)),
        ("18446744073709551616", None),
        ("", None),
        ("+", None),
        ("-1", None),
        (" 1", None),
        ("1.5", None),
    ] {
        assert_eq!(parse_u64(text), value, "{text:?}");
        assert_eq!(text.parse::<u64>().ok(), value, "{text:?}");
    }
}

#[test]
fn texts_are_trimmed_shortened_and_lowered() {
    assert_eq!(trim(" \t\u{a0}a b\u{3000}\n"), "a b");
    assert_eq!(shorten("héllo", 2), "hé");
    assert_eq!(shorten("a", 9), "a");
    assert_eq!(to_ascii_small("No-AUTH É"), "no-auth É");
}

#[test]
fn a_map_keeps_the_last_value_of_a_key_in_order() {
    let mut map = StringMap::from_pairs(vec![
        ("b".to_owned(), "1".to_owned()),
        ("a".to_owned(), "2".to_owned()),
        ("b".to_owned(), "3".to_owned()),
    ]);
    assert_eq!(map.len(), 2);
    assert_eq!(map.key_at(0), "a");
    assert_eq!(map.get("b").map(String::as_str), Some("3"));
    map.remove("a");
    map.remove("none");
    assert!(!map.contains_key("a") && !map.is_empty());
}

#[test]
fn addresses_are_read_and_written() {
    for (text, ip, port, written) in [
        (
            "10.244.1.7:8080",
            IpAddr::V4(0x0af4_0107),
            8080,
            "10.244.1.7:8080",
        ),
        ("0.0.0.0:0", IpAddr::V4(0), 0, "0.0.0.0:0"),
        (
            "[FD00:0::7]:8080",
            IpAddr::V6(0xfd00 << 112 | 7),
            8080,
            "[fd00::7]:8080",
        ),
        ("[::]:1", IpAddr::V6(0), 1, "[::]:1"),
        (
            "[::ffff:10.0.0.1]:80",
            IpAddr::V6(0xffff_0a00_0001),
            80,
            "[::ffff:10.0.0.1]:80",
        ),
        (
            "[1:2:3:4:5:6:7:8]:65535",
            IpAddr::V6(0x0001_0002_0003_0004_0005_0006_0007_0008),
            65535,
            "[1:2:3:4:5:6:7:8]:65535",
        ),
        (
            "[1::8]:80",
            IpAddr::V6(1 << 112 | 8),
            80,
            "[1::8]:80",
        ),
        (
            "[::1:0:0:2]:80",
            IpAddr::V6(1 << 48 | 2),
            80,
            "[::1:0:0:2]:80",
        ),
    ] {
        let address = parse_socket(text).unwrap_or_else(|| panic!("{text}"));
        assert_eq!(address.port, port, "{text}");
        assert_eq!(address.ip, ip, "{text}");
        assert_eq!(socket_text(address), written, "{text}");
    }
    for text in [
        "",
        "localhost",
        "10.0.0.1",
        "10.0.0.1:",
        "10.0.0.1:65536",
        "10.0.0.01:1",
        "10.0.0.256:1",
        "fd00::7:80",
        "[1:2:3]:80",
        "[::1]",
        "[1:2:3:4:5:6:7:8:9]:1",
        "[::1::2]:1",
        " 10.0.0.1:1",
    ] {
        assert_eq!(parse_socket(text), None, "{text}");
    }
    assert_eq!(parse_ip("127.0.0.1"), Some(IpAddr::V4(0x7f00_0001)));
    assert_eq!(parse_ip("127.0.0.1:1"), None);
}

#[test]
fn a_backend_address_needs_a_port() {
    assert_eq!(
        BackendAddress::parse("010.0.0.1:0").unwrap_err().value,
        "010.0.0.1:0"
    );
    assert_eq!(
        BackendAddress::parse("[fd00:0::7]:0").unwrap_err().value,
        "[fd00::7]:0"
    );
    assert_eq!(
        BackendAddress::parse("10.0.0.1:0").unwrap_err().value,
        "10.0.0.1:0"
    );
    assert_eq!(BackendAddress::parse("pod:80").unwrap_err().value, "pod:80");
    let address = BackendAddress::parse("[fd00::7]:8080").unwrap();
    assert_eq!(address.to_text(), "[fd00::7]:8080");
    assert!(BackendEndpoint::new("  ").is_err());
}

#[test]
fn names_of_instances_carry_the_digest_of_their_id() {
    let id = InstanceId::new("abc").unwrap();
    assert_eq!(render_instance_scoped_name("svc", &id), "svc-ba7816bf");
    assert_eq!(
        render_instance_scoped_name(&"x".repeat(80), &id),
        format!("{}-ba7816bf", "x".repeat(54))
    );
    assert!(is_dns_label("a-1") && !is_dns_label("a.1") && !is_dns_label(""));
    assert_eq!(Generation::new(u64::MAX - 1).next().get(), u64::MAX);
}

#[test]
fn documents_are_read_from_yaml() {
    let document = read_yaml("a: [1, two, true, null]\nb: {c: 0.5}\n").unwrap();
    let items = document.get("a").and_then(Json::as_array).unwrap();
    assert_eq!(
        items,
        &vec![
            Json::Number("1".to_owned()),
            Json::Text("two".to_owned()),
            Json::Bool(true),
            Json::Null
        ]
    );
    assert_eq!(
        document.get("b").and_then(|inner| inner.get("c")),
        Some(&Json::Number("0.5".to_owned()))
    );
    assert!(read_yaml("a: [").is_err());
}

#[test]
fn tokens_tell_the_roles_apart() {
    let tokens = StaticBearerTokens::new("one", "two", "three").unwrap();
    assert_eq!(
        tokens
            .token_for(CallerRole::Sidecar)
            .authorization_header_value(),
        "Bearer three"
    );
    for (texts, fault) in [
        (
            ["one", "one", "three"],
            InvalidStaticBearerTokens::DuplicateToken {
                first: CallerRole::Operator,
                second: CallerRole::Proxy,
            },
        ),
        (
            ["one", "two", "one"],
            InvalidStaticBearerTokens::DuplicateToken {
                first: CallerRole::Operator,
                second: CallerRole::Sidecar,
            },
        ),
        (
            ["one", "t wo", "one"],
            InvalidStaticBearerTokens::InvalidToken {
                role: CallerRole::Proxy,
            },
        ),
        (
            ["one", "two", ""],
            InvalidStaticBearerTokens::InvalidToken {
                role: CallerRole::Sidecar,
            },
        ),
    ] {
        assert_eq!(
            StaticBearerTokens::new(texts[0], texts[1], texts[2]),
            Err(fault)
        );
    }
    assert_eq!(
        InvalidStaticBearerTokens::InvalidToken {
            role: CallerRole::Proxy
        }
        .to_text(),
        "proxy bearer token must be visible ASCII"
    );
    assert!(BearerToken::new("sidecar", "é").is_err());
}

#[test]
fn spans_add_up() {
    let second = Duration::from_secs(1);
    assert_eq!(second.saturating_sub(Duration::from_secs(2)), Duration::zero());
    assert_eq!(second.divided_by(3).as_nanos(), 333_333_333);
    assert_eq!(
        next_poll(Duration::from_millis(3), second),
        Some(Duration::from_millis(3))
    );
    assert_eq!(next_poll(Duration::zero(), second), None);
}

#[test]
fn targets_and_databases_need_names() {
    assert_eq!(
        MaterializationTarget::new("cluster-a", " ").unwrap_err().field,
        "namespace"
    );
    let mut config = PostgresStoreConfig::new("postgres://db").unwrap();
    assert_eq!(config.validate_limits(), Ok(()));
    config.max_connections = MAX_CONNECTIONS + 1;
    assert_eq!(
        config.validate_limits(),
        Err("SLEEPYPODS_POSTGRES_MAX_CONNECTIONS")
    );
    assert!(PostgresStoreConfig::new("").is_none());
}

#[test]
fn lost_answers_leave_a_change_open() {
    let failure = |kind: KubeFailureKind| KubeFailure {
        kind,
        message: "why".to_owned(),
    };
    let api = |code: u16, reason: &str| {
        failure(KubeFailureKind::Api {
            code,
            reason: reason.to_owned(),
        })
    };

    assert!(mutation_error(&failure(KubeFailureKind::Connection)).outcome_uncertain());
    assert!(mutation_error(&api(503, "ServiceUnavailable")).outcome_uncertain());
    assert!(!mutation_error(&failure(KubeFailureKind::Request)).outcome_uncertain());
    let conflict = mutation_error(&api(409, "Conflict"));
    assert!(conflict.is_retryable() && !conflict.outcome_uncertain());
    assert_eq!(delete_outcome(&api(404, "NotFound")), Ok(()));
    assert!(delete_outcome(&api(403, "Forbidden")).is_err());
    assert!(!is_not_found(&failure(KubeFailureKind::Other)));
    assert!(pvc_phase_is_bound(Some("Bound")) && !pvc_phase_is_bound(Some("Pending")));
    assert_eq!(
        split_api_version("apps/v1"),
        ("apps".to_owned(), "v1".to_owned())
    );
    assert_eq!(split_api_version("v1"), (String::new(), "v1".to_owned()));
}
