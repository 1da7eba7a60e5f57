//! Tests for single commands, quit/shutdown behaviour, the capability
//! ledger, and the single-use command slot.

use smtp_core::commands::{Ehlo, Noop, Quit};
use smtp_core::common::ClientIdentity;
use smtp_core::connection::{BoxedCmd, Cmd, Connection, TypeErasableCmd};
use smtp_core::ehlo::EhloData;
use smtp_core::response::{Response, ScriptItem};
use smtp_core::transport::Transport;

fn reply(code: u16, lines: &[&[u8]]) -> ScriptItem {
    ScriptItem::Reply(Response {
        code,
        lines: lines.iter().map(|l| l.to_vec()).collect(),
    })
}

fn clid() -> ClientIdentity {
    ClientIdentity {
        name: b"client.example".to_vec(),
    }
}

fn handshaken(extra: Vec<ScriptItem>) -> Connection {
    let mut script = vec![reply(220, &[b"ready"]), reply(250, &[b"mail.example.org"])];
    script.extend(extra);
    Connection::connect_insecure(b"mail.example.org:25", clid(), script)
        .ok()
        .expect("handshake should succeed")
}

#[test]
fn quit_positive_reply_shuts_down() {
    let con = handshaken(vec![reply(221, &[b"bye"])]);
    let t = con.quit().ok().expect("quit should survive");
    assert!(t.is_shut_down());
    assert!(t.transcript().ends_with(&b"QUIT\r\n"[..]));
}

#[test]
fn quit_negative_reply_still_shuts_down() {
    let con = handshaken(vec![reply(502, &[b"command not implemented"])]);
    let t = con.quit().ok().expect("quit should survive");
    assert!(t.is_shut_down());
}

#[test]
fn quit_garbled_reply_still_shuts_down() {
    let con = handshaken(vec![ScriptItem::Garbled]);
    let t = con.quit().ok().expect("quit should survive");
    assert!(t.is_shut_down());
}

#[test]
fn quit_on_dead_transport_errs() {
    let con = handshaken(vec![]);
    assert!(con.quit().is_err());
}

#[test]
fn operations_on_shut_down_transport_fail() {
    let con = handshaken(vec![reply(221, &[b"bye"])]);
    let dead = con.quit().ok().expect("quit should survive");
    // even with events still queued, a shut-down transport refuses work
    let revived = Transport {
        script: vec![reply(250, &[b"OK"])],
        sent: Vec::new(),
        shut_down: dead.shut_down,
        secure: dead.secure,
        ehlo: None,
    };
    let r = Connection::from(revived).send(Noop);
    assert!(r.is_err());
}

#[test]
fn send_simple_cmd_writes_line_and_terminator() {
    let script = vec![reply(220, &[b"ready"]), reply(250, &[b"OK"])];
    let con = Connection::connect_insecure_no_ehlo(b"mail.example.org:25", script)
        .ok()
        .expect("greeting should succeed");
    let (con2, res) = con.send_simple_cmd(Noop).expect("transport should survive");
    assert!(res.is_ok());
    let t = con2.into_inner();
    assert_eq!(t.transcript(), &b"NOOP\r\n".to_vec());
}

#[test]
fn ehlo_replaces_previous_ledger() {
    let con = handshaken(vec![reply(250, &[b"mail.example.org", b"XLATER"])]);
    let (con2, res) = con
        .send(Ehlo { identity: clid() })
        .expect("transport should survive");
    assert!(res.is_ok());
    assert!(con2.has_capability(b"XLATER"));
}

#[test]
fn single_use_slot_is_cleared_by_execution() {
    let script = vec![reply(220, &[b"ready"]), reply(250, &[b"OK"])];
    let con = Connection::connect_insecure_no_ehlo(b"mail.example.org:25", script)
        .ok()
        .expect("greeting should succeed");
    let mut slot: Option<Quit> = Some(Quit);
    let r = slot._only_once_exec(con);
    assert!(r.is_ok());
    // the slot is consumed: a second invocation would be a usage fault
    assert!(slot.is_none());
}

#[test]
fn response_positivity_boundaries() {
    for (code, positive) in [(199u16, false), (200, true), (354, true), (399, true), (400, false), (554, false)] {
        let resp = Response {
            code,
            lines: Vec::new(),
        };
        assert_eq!(resp.is_positive(), positive);
    }
}

#[test]
fn ledger_extracts_keywords_up_to_first_space() {
    let resp = Response {
        code: 250,
        lines: vec![
            b"mail.example.org greets client.example".to_vec(),
            b"SIZE 35882577".to_vec(),
            b"AUTH PLAIN LOGIN".to_vec(),
            b"8BITMIME".to_vec(),
        ],
    };
    let data = EhloData::from_response(&resp);
    assert_eq!(data.domain, b"mail.example.org".to_vec());
    assert_eq!(
        data.capabilities,
        vec![b"SIZE".to_vec(), b"AUTH".to_vec(), b"8BITMIME".to_vec()]
    );
    assert!(data.has(b"AUTH"));
    assert!(!data.has(b"PLAIN"));
}

#[test]
fn shutdown_terminates_transport() {
    let con = handshaken(vec![]);
    let t = con.shutdown();
    assert!(t.is_shut_down());
}

#[test]
fn boxed_commands_run_heterogeneously() {
    let mut con = handshaken(vec![reply(250, &[b"OK"]), reply(221, &[b"bye"])]);
    let cmds: Vec<BoxedCmd> = vec![Noop.boxed(), Quit.boxed()];
    for cmd in cmds {
        let (c2, res) = con.send(cmd).expect("transport should survive");
        assert!(res.is_ok());
        con = c2;
    }
    assert!(con.into_inner().transcript().ends_with(&b"NOOP\r\nQUIT\r\n"[..]));
}
