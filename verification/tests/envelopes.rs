//! Envelope listing: header and rows, and assembly from backend reports.

use himalaya::envelope::{Color, Envelope, Envelopes, Mailbox, RawEnvelope};
use himalaya::flag::{Flag, Flags};

fn flags_of(list: &[Flag]) -> Flags {
    let mut flags = Flags::new();
    for f in list {
        flags.push(*f);
    }
    flags
}

#[test]
fn head_row_lists_the_five_columns() {
    let head = Envelope::head();
    let texts: Vec<&str> = head.cells.iter().map(|c| c.text.as_str()).collect();
    assert_eq!(texts, vec!["ID", "FLAGS", "SUBJECT", "FROM", "DATE"]);
    for (i, cell) in head.cells.iter().enumerate() {
        assert!(cell.bold);
        assert!(cell.underline);
        assert_eq!(cell.color, Color::White);
        assert_eq!(cell.shrinkable, i == 2);
    }
}

#[test]
fn unseen_answered_envelope_row() {
    let envelope = Envelope {
        id: "42".to_string(),
        flags: flags_of(&[Flag::Answered]),
        subject: "Quarterly report".to_string(),
        from: Mailbox { name: Some("Alice".to_string()), addr: "alice@example.org".to_string() },
        date: "2024-01-31 10:00".to_string(),
    };
    let row = envelope.row();
    assert_eq!(row.cells.len(), 5);
    assert_eq!(row.cells[0].text, "42");
    assert_eq!(row.cells[1].text, "\u{2737}\u{21b5} ");
    assert_eq!(row.cells[2].text, "Quarterly report");
    assert_eq!(row.cells[3].text, "Alice");
    assert_eq!(row.cells[4].text, "2024-01-31 10:00");
    for cell in &row.cells {
        assert!(cell.bold, "every cell of an unseen envelope is bold");
        assert!(!cell.underline);
    }
    assert_eq!(row.cells[0].color, Color::Red);
    assert_eq!(row.cells[1].color, Color::White);
    assert_eq!(row.cells[2].color, Color::Green);
    assert_eq!(row.cells[3].color, Color::Blue);
    assert_eq!(row.cells[4].color, Color::Yellow);
}

#[test]
fn seen_flagged_envelope_row_uses_address_when_unnamed() {
    let envelope = Envelope {
        id: "7".to_string(),
        flags: flags_of(&[Flag::Seen, Flag::Flagged]),
        subject: "Re: hello".to_string(),
        from: Mailbox { name: None, addr: "bob@example.org".to_string() },
        date: "2024-02-01 09:30".to_string(),
    };
    let row = envelope.row();
    assert_eq!(row.cells[1].text, "  \u{2691}");
    assert_eq!(row.cells[3].text, "bob@example.org");
    for cell in &row.cells {
        assert!(!cell.bold, "a seen envelope is not bold");
    }
}

#[test]
fn from_backend_carries_every_field_over() {
    let raw = vec![
        RawEnvelope {
            alias: "1".to_string(),
            flags: flags_of(&[Flag::Seen]),
            subject: "first".to_string(),
            from_name: Some("Alice".to_string()),
            from_addr: "alice@example.org".to_string(),
            date: "2024-03-01".to_string(),
        },
        RawEnvelope {
            alias: "2".to_string(),
            flags: flags_of(&[]),
            subject: "second".to_string(),
            from_name: None,
            from_addr: "bob@example.org".to_string(),
            date: "2024-03-02".to_string(),
        },
    ];
    let envelopes = Envelopes::from_backend(&raw);
    let list = envelopes.as_vec();
    assert_eq!(list.len(), 2);
    assert_eq!(list[0].id, "1");
    assert!(list[0].flags.contains(Flag::Seen));
    assert_eq!(list[0].subject, "first");
    assert_eq!(list[0].from.name.as_deref(), Some("Alice"));
    assert_eq!(list[0].from.addr, "alice@example.org");
    assert_eq!(list[0].date, "2024-03-01");
    assert_eq!(list[1].id, "2");
    assert!(!list[1].flags.contains(Flag::Seen));
    assert!(list[1].from.name.is_none());
}
