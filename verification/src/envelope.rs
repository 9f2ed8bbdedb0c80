//! Envelopes as listed to the user: the sender mailbox, the subject, the
//! date, and the flag markers, together with the table rows rendering
//! them.
//!
//! Writing the table to a terminal happens in the surrounding
//! application; what each cell holds, and how it is styled, is decided
//! here.

use vstd::prelude::*;
use vstd::string::StringExecFns;

use crate::flag::{Flag, Flags};

verus! {

/// A sender or recipient: an optional display name and an address.
#[derive(Clone, Debug, Default)]
pub struct Mailbox {
    pub name: Option<String>,
    pub addr: String,
}

/// One envelope of the listing.
#[derive(Clone, Debug, Default)]
pub struct Envelope {
    pub id: String,
    pub flags: Flags,
    pub subject: String,
    pub from: Mailbox,
    pub date: String,
}

/// The color a cell is rendered in.
#[derive(Clone, Copy, Debug, PartialEq, Eq, Structural)]
pub enum Color {
    White,
    Red,
    Green,
    Blue,
    Yellow,
}

/// One styled cell of a rendered table.
#[derive(Clone, Debug)]
pub struct Cell {
    pub text: String,
    pub color: Color,
    pub bold: bool,
    pub underline: bool,
    pub shrinkable: bool,
}

/// One row of a rendered table.
#[derive(Clone, Debug)]
pub struct Row {
    pub cells: Vec<Cell>,
}

/// The three flag markers of an envelope's flags cell: unseen, answered,
/// flagged.
pub open spec fn spec_flags_text(flags: Flags) -> Seq<char> {
    seq![
        if flags.spec_contains(Flag::Seen) {
            ' '
        } else {
            '\u{2737}'
        },
        if flags.spec_contains(Flag::Answered) {
            '\u{21b5}'
        } else {
            ' '
        },
        if flags.spec_contains(Flag::Flagged) {
            '\u{2691}'
        } else {
            ' '
        },
    ]
}

/// The sender as listed: the display name where the mailbox carries one,
/// its address otherwise.
pub open spec fn spec_sender_text(from: Mailbox) -> Seq<char> {
    match from.name {
        Some(n) => n@,
        None => from.addr@,
    }
}

/// Render the three flag markers.
fn flags_text(flags: &Flags) -> (r: String)
    ensures
        r@ == spec_flags_text(*flags),
{
    let mut s = String::new();
    if flags.contains(Flag::Seen) {
        s.append(" ");
    } else {
        s.append("\u{2737}");
    }
    if flags.contains(Flag::Answered) {
        s.append("\u{21b5}");
    } else {
        s.append(" ");
    }
    if flags.contains(Flag::Flagged) {
        s.append("\u{2691}");
    } else {
        s.append(" ");
    }
    proof {
        reveal_strlit(" ");
        reveal_strlit("\u{2737}");
        reveal_strlit("\u{21b5}");
        reveal_strlit("\u{2691}");
        assert(s@ =~= spec_flags_text(*flags));
    }
    s
}

impl Envelope {
    /// Is the envelope still unseen?
    pub open spec fn spec_unseen(self) -> bool {
        !self.flags.spec_contains(Flag::Seen)
    }

    /// The header row of the envelope listing.
    pub fn head() -> (r: Row)
        ensures
            r.cells@.len() == 5,
            r.cells@[0].text@ == "ID"@,
            r.cells@[1].text@ == "FLAGS"@,
            r.cells@[2].text@ == "SUBJECT"@,
            r.cells@[3].text@ == "FROM"@,
            r.cells@[4].text@ == "DATE"@,
            forall|i: int| 0 <= i < 5 ==> {
                &&& (#[trigger] r.cells@[i]).bold
                &&& r.cells@[i].underline
                &&& r.cells@[i].color == Color::White
                &&& r.cells@[i].shrinkable == (i == 2)
            },
    {
        let mut cells: Vec<Cell> = Vec::new();
        cells.push(
            Cell {
                text: String::from_str("ID"),
                color: Color::White,
                bold: true,
                underline: true,
                shrinkable: false,
            },
        );
        cells.push(
            Cell {
                text: String::from_str("FLAGS"),
                color: Color::White,
                bold: true,
                underline: true,
                shrinkable: false,
            },
        );
        cells.push(
            Cell {
                text: String::from_str("SUBJECT"),
                color: Color::White,
                bold: true,
                underline: true,
                shrinkable: true,
            },
        );
        cells.push(
            Cell {
                text: String::from_str("FROM"),
                color: Color::White,
                bold: true,
                underline: true,
                shrinkable: false,
            },
        );
        cells.push(
            Cell {
                text: String::from_str("DATE"),
                color: Color::White,
                bold: true,
                underline: true,
                shrinkable: false,
            },
        );
        Row { cells }
    }

    /// The listing row of this envelope: id, flag markers, subject,
    /// sender and date, each bold while the envelope is unseen.
    pub fn row(&self) -> (r: Row)
        ensures
            r.cells@.len() == 5,
            forall|i: int| 0 <= i < 5 ==> {
                &&& (#[trigger] r.cells@[i]).bold == self.spec_unseen()
                &&& !r.cells@[i].underline
                &&& r.cells@[i].shrinkable == (i == 2)
            },
            r.cells@[0].text@ == self.id@ && r.cells@[0].color == Color::Red,
            r.cells@[1].text@ == spec_flags_text(self.flags) && r.cells@[1].color == Color::White,
            r.cells@[2].text@ == self.subject@ && r.cells@[2].color == Color::Green,
            r.cells@[3].text@ == spec_sender_text(self.from) && r.cells@[3].color == Color::Blue,
            r.cells@[4].text@ == self.date@ && r.cells@[4].color == Color::Yellow,
    {
        let unseen = !self.flags.contains(Flag::Seen);
        let sender = match &self.from.name {
            Some(n) => n.clone(),
            None => self.from.addr.clone(),
        };
        let mut cells: Vec<Cell> = Vec::new();
        cells.push(
            Cell {
                text: self.id.clone(),
                color: Color::Red,
                bold: unseen,
                underline: false,
                shrinkable: false,
            },
        );
        cells.push(
            Cell {
                text: flags_text(&self.flags),
                color: Color::White,
                bold: unseen,
                underline: false,
                shrinkable: false,
            },
        );
        cells.push(
            Cell {
                text: self.subject.clone(),
                color: Color::Green,
                bold: unseen,
                underline: false,
                shrinkable: true,
            },
        );
        cells.push(
            Cell {
                text: sender,
                color: Color::Blue,
                bold: unseen,
                underline: false,
                shrinkable: false,
            },
        );
        cells.push(
            Cell {
                text: self.date.clone(),
                color: Color::Yellow,
                bold: unseen,
                underline: false,
                shrinkable: false,
            },
        );
        Row { cells }
    }
}

/// One envelope as the underlying store reports it, already reduced to
/// plain values: the aliased id the cache resolved for it, its converted
/// flags, and its formatted date.
#[derive(Clone, Debug)]
pub struct RawEnvelope {
    pub alias: String,
    pub flags: Flags,
    pub subject: String,
    pub from_name: Option<String>,
    pub from_addr: String,
    pub date: String,
}

/// The list of envelopes of one folder listing.
#[derive(Clone, Debug, Default)]
pub struct Envelopes(pub Vec<Envelope>);

/// An exact copy of a flag set.
fn clone_flags(f: &Flags) -> (r: Flags)
    ensures
        r.flags@ == f.flags@,
{
    let flags = f.flags.clone();
    proof {
        assert forall|i: int| 0 <= i < f.flags@.len() implies flags@[i] == f.flags@[i] by {
            assert(cloned::<Flag>(f.flags@[i], flags@[i]));
        }
        assert(flags@ =~= f.flags@);
    }
    Flags { flags }
}

/// An exact copy of an optional display name.
fn clone_opt_string(v: &Option<String>) -> (r: Option<String>)
    ensures
        r == v,
{
    match v {
        Some(n) => Some(n.clone()),
        None => None,
    }
}

impl Envelopes {
    /// Assemble the listing from what the backend reported: one envelope
    /// per raw entry, in the reported order, each field carried over.
    pub fn from_backend(envelopes: &Vec<RawEnvelope>) -> (r: Envelopes)
        ensures
            r.0@.len() == envelopes@.len(),
            forall|i: int| 0 <= i < envelopes@.len() ==> {
                let e = #[trigger] r.0@[i];
                let s = envelopes@[i];
                &&& e.id@ == s.alias@
                &&& e.flags.flags@ == s.flags.flags@
                &&& e.subject@ == s.subject@
                &&& e.from.name == s.from_name
                &&& e.from.addr@ == s.from_addr@
                &&& e.date@ == s.date@
            },
    {
        let mut out: Vec<Envelope> = Vec::new();
        let mut i: usize = 0;
        while i < envelopes.len()
            invariant
                i <= envelopes@.len(),
                out@.len() == i,
                forall|j: int| 0 <= j < i ==> {
                    let e = #[trigger] out@[j];
                    let s = envelopes@[j];
                    &&& e.id@ == s.alias@
                    &&& e.flags.flags@ == s.flags.flags@
                    &&& e.subject@ == s.subject@
                    &&& e.from.name == s.from_name
                    &&& e.from.addr@ == s.from_addr@
                    &&& e.date@ == s.date@
                },
            decreases envelopes@.len() - i,
        {
            let s = &envelopes[i];
            out.push(
                Envelope {
                    id: s.alias.clone(),
                    flags: clone_flags(&s.flags),
                    subject: s.subject.clone(),
                    from: Mailbox { name: clone_opt_string(&s.from_name), addr: s.from_addr.clone() },
                    date: s.date.clone(),
                },
            );
            i = i + 1;
        }
        Envelopes(out)
    }

    /// The envelopes of the listing.
    pub fn as_vec(&self) -> (r: &Vec<Envelope>)
        ensures
            r == &self.0,
    {
        &self.0
    }
}

} // verus!
