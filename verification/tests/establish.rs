//! Scenario tests for the establishment pipeline.

use smtp_core::commands::Noop;
use smtp_core::common::{ClientIdentity, DefaultTlsSetup, Domain, TlsConfig};
use smtp_core::connect::{ConnectionConfig, Security};
use smtp_core::connection::Connection;
use smtp_core::response::{ConnectingFailed, LogicError, Response, ScriptItem};

fn reply(code: u16, lines: &[&[u8]]) -> ScriptItem {
    ScriptItem::Reply(Response {
        code,
        lines: lines.iter().map(|l| l.to_vec()).collect(),
    })
}

fn clid() -> ClientIdentity {
    ClientIdentity {
        name: b"client.example".to_vec(),
    }
}

fn plain_config() -> ConnectionConfig<Noop, DefaultTlsSetup> {
    ConnectionConfig {
        addr: b"mail.example.org:587".to_vec(),
        auth_cmd: Noop,
        security: Security::Insecure,
        client_id: clid(),
    }
}

#[test]
fn connect_plain_success_populates_ledger() {
    let script = vec![
        reply(220, &[b"mail.example.org ESMTP ready"]),
        reply(
            250,
            &[b"mail.example.org greets you", b"STARTTLS", b"SIZE 35882577"],
        ),
        reply(250, &[b"OK"]),
    ];
    let r = Connection::connect(plain_config(), script);
    let con = r.ok().expect("establishment should succeed");
    assert!(con.has_capability(b"STARTTLS"));
    assert!(con.has_capability(b"SIZE"));
    assert!(!con.has_capability(b"PIPELINING"));
    let data = con.ehlo_data().expect("ledger must be populated");
    assert_eq!(data.domain, b"mail.example.org".to_vec());
    assert_eq!(
        data.capabilities,
        vec![b"STARTTLS".to_vec(), b"SIZE".to_vec()]
    );
}

#[test]
fn connect_direct_tls_success_is_secure() {
    let config = ConnectionConfig::with_direct_tls(
        b"mail.example.org:465".to_vec(),
        Domain {
            name: b"mail.example.org".to_vec(),
        },
        clid(),
        Noop,
    );
    let script = vec![
        reply(220, &[b"ready"]),
        reply(250, &[b"mail.example.org", b"PIPELINING"]),
        reply(250, &[b"OK"]),
    ];
    let r = Connection::connect(config, script);
    let con = r.ok().expect("establishment should succeed");
    assert!(con.has_capability(b"PIPELINING"));
    let t = con.into_inner();
    assert!(t.secure);
}

#[test]
fn connect_starttls_ledger_reflects_only_post_upgrade_ehlo() {
    let config = ConnectionConfig::with_starttls(
        b"mail.example.org:587".to_vec(),
        Domain {
            name: b"mail.example.org".to_vec(),
        },
        clid(),
        Noop,
    );
    let script = vec![
        reply(220, &[b"ready"]),
        reply(250, &[b"mail.example.org", b"STARTTLS", b"XPREONLY"]),
        reply(220, &[b"go ahead"]),
        reply(250, &[b"mail.example.org", b"XPOSTONLY"]),
        reply(250, &[b"OK"]),
    ];
    let r = Connection::connect(config, script);
    let con = r.ok().expect("establishment should succeed");
    assert!(con.has_capability(b"XPOSTONLY"));
    assert!(!con.has_capability(b"XPREONLY"));
    assert!(!con.has_capability(b"STARTTLS"));
    let t = con.into_inner();
    assert!(t.secure);
}

#[test]
fn connect_starttls_without_advertisement_fails_fast() {
    let config = ConnectionConfig::with_starttls(
        b"mail.example.org:587".to_vec(),
        Domain {
            name: b"mail.example.org".to_vec(),
        },
        clid(),
        Noop,
    );
    let script = vec![
        reply(220, &[b"ready"]),
        reply(250, &[b"mail.example.org", b"PIPELINING"]),
    ];
    let r = Connection::connect(config, script);
    assert!(matches!(
        r,
        Err(ConnectingFailed::Setup(LogicError::MissingStartTls))
    ));
}

#[test]
fn connect_starttls_server_rejection_is_setup() {
    let config = ConnectionConfig::with_starttls(
        b"mail.example.org:587".to_vec(),
        Domain {
            name: b"mail.example.org".to_vec(),
        },
        clid(),
        Noop,
    );
    let script = vec![
        reply(220, &[b"ready"]),
        reply(250, &[b"mail.example.org", b"STARTTLS"]),
        reply(454, &[b"TLS not available due to temporary reason"]),
    ];
    let r = Connection::connect(config, script);
    match r {
        Err(ConnectingFailed::Setup(LogicError::Negative(resp))) => assert_eq!(resp.code, 454),
        _ => panic!("expected Setup(Negative)"),
    }
}

#[test]
fn connect_auth_rejection_is_auth_tagged() {
    let script = vec![
        reply(220, &[b"ready"]),
        reply(250, &[b"mail.example.org", b"AUTH PLAIN"]),
        reply(535, &[b"authentication credentials invalid"]),
        reply(221, &[b"bye"]),
    ];
    let r = Connection::connect(plain_config(), script);
    match r {
        Err(ConnectingFailed::Auth(LogicError::Negative(resp))) => assert_eq!(resp.code, 535),
        _ => panic!("expected Auth(Negative)"),
    }
}

#[test]
fn connect_greeting_negative_is_setup() {
    let script = vec![reply(554, &[b"no service"])];
    let r = Connection::connect(plain_config(), script);
    match r {
        Err(ConnectingFailed::Setup(LogicError::Negative(resp))) => assert_eq!(resp.code, 554),
        _ => panic!("expected Setup(Negative)"),
    }
}

#[test]
fn connect_empty_script_is_io() {
    let r = Connection::connect(plain_config(), Vec::new());
    assert!(matches!(r, Err(ConnectingFailed::Io(_))));
}

#[test]
fn connect_garbled_ehlo_is_setup_malformed() {
    let script = vec![reply(220, &[b"ready"]), ScriptItem::Garbled];
    let r = Connection::connect(plain_config(), script);
    assert!(matches!(
        r,
        Err(ConnectingFailed::Setup(LogicError::Malformed))
    ));
}

#[test]
fn connect_transport_fault_is_io() {
    let script = vec![reply(220, &[b"ready"]), ScriptItem::Fault];
    let r = Connection::connect(plain_config(), script);
    assert!(matches!(r, Err(ConnectingFailed::Io(_))));
}

#[test]
fn has_capability_false_before_any_ehlo() {
    let script = vec![reply(220, &[b"ready"])];
    let r = Connection::connect_insecure_no_ehlo(b"mail.example.org:25", script);
    let con = r.ok().expect("greeting should succeed");
    assert!(!con.has_capability(b"STARTTLS"));
    assert!(!con.has_capability(b"SIZE"));
    assert!(!con.has_capability(b""));
    assert!(con.ehlo_data().is_none());
}

#[test]
fn connect_insecure_transcript_is_ehlo_line() {
    let script = vec![reply(220, &[b"ready"]), reply(250, &[b"mail.example.org"])];
    let r = Connection::connect_insecure(b"mail.example.org:25", clid(), script);
    let con = r.ok().expect("handshake should succeed");
    let t = con.into_inner();
    assert_eq!(t.transcript(), &b"EHLO client.example\r\n".to_vec());
}

#[test]
fn connect_direct_tls_primitive_keeps_tls_config_domain() {
    let tls = TlsConfig {
        domain: Domain {
            name: b"mail.example.org".to_vec(),
        },
        setup: DefaultTlsSetup,
    };
    let script = vec![reply(220, &[b"ready"]), reply(250, &[b"mail.example.org"])];
    let r = Connection::connect_direct_tls(b"mail.example.org:465", clid(), tls, script);
    let con = r.ok().expect("handshake should succeed");
    let t = con.into_inner();
    assert!(t.secure);
    assert!(!t.shut_down);
}
