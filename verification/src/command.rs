//! The command encoder: the closed mapping from query names to wire
//! requests.

use vstd::prelude::*;
use vstd::string::StrSliceExecFns;
use crate::error::QueryError;

verus! {

/// The closed set of status queries the device understands. A query is
/// chosen once per run and never changes.
#[derive(Clone, Copy, Debug, PartialEq, Eq, Structural)]
pub enum Command {
    /// General status query.
    GeneralStatus,
    /// Battery status query.
    BatteryStatus,
    /// Operational mode query.
    OperationalModeStatus,
}

impl Command {
    /// The name under which this query is selected at the process
    /// boundary.
    pub open spec fn spec_name(self) -> Seq<char> {
        match self {
            Command::GeneralStatus => "general"@,
            Command::BatteryStatus => "battery"@,
            Command::OperationalModeStatus => "operation"@,
        }
    }

    /// The wire request for this query: the command word followed by the
    /// carriage-return terminator.
    pub open spec fn spec_wire(self) -> Seq<char> {
        match self {
            Command::GeneralStatus => "QGS\r"@,
            Command::BatteryStatus => "QBV\r"@,
            Command::OperationalModeStatus => "QMOD\r"@,
        }
    }

    /// The wire request as the bytes that go out on the line.
    pub open spec fn spec_wire_bytes(self) -> Seq<u8> {
        match self {
            Command::GeneralStatus => seq![0x51u8, 0x47u8, 0x53u8, 0x0du8],
            Command::BatteryStatus => seq![0x51u8, 0x42u8, 0x56u8, 0x0du8],
            Command::OperationalModeStatus => seq![0x51u8, 0x4du8, 0x4fu8, 0x44u8, 0x0du8],
        }
    }

    /// Resolve a command name. Exactly the three recognized names succeed;
    /// every other string fails with `UnknownCommand`.
    pub fn from_str(s: &str) -> (r: Result<Command, QueryError>)
        ensures
            s@ == "general"@ ==> r == Ok::<Command, QueryError>(Command::GeneralStatus),
            s@ == "battery"@ ==> r == Ok::<Command, QueryError>(Command::BatteryStatus),
            s@ == "operation"@ ==> r == Ok::<Command, QueryError>(
                Command::OperationalModeStatus,
            ),
            r matches Ok(c) ==> s@ == c.spec_name(),
            r matches Err(e) ==> e == QueryError::UnknownCommand
                && (forall|c: Command| s@ != c.spec_name()),
    {
        proof {
            lemma_commands_distinct();
        }
        if str_eq(s, "general") {
            Ok(Command::GeneralStatus)
        } else if str_eq(s, "battery") {
            Ok(Command::BatteryStatus)
        } else if str_eq(s, "operation") {
            Ok(Command::OperationalModeStatus)
        } else {
            Err(QueryError::UnknownCommand)
        }
    }

    /// The fixed wire request for this query, as text.
    pub fn to_command(&self) -> (r: &'static str)
        ensures
            r@ == self.spec_wire(),
    {
        match *self {
            Command::GeneralStatus => "QGS\r",
            Command::BatteryStatus => "QBV\r",
            Command::OperationalModeStatus => "QMOD\r",
        }
    }

    /// How many bytes this query's wire request holds.
    pub fn wire_len(&self) -> (n: usize)
        ensures
            n == self.spec_wire_bytes().len(),
    {
        match *self {
            Command::GeneralStatus => 4,
            Command::BatteryStatus => 4,
            Command::OperationalModeStatus => 5,
        }
    }

    /// The fixed wire request for this query, as the byte sequence handed
    /// to the transport.
    pub fn wire_bytes(&self) -> (r: Vec<u8>)
        ensures
            r@ == self.spec_wire_bytes(),
    {
        let mut r: Vec<u8> = Vec::new();
        r.push(0x51u8);
        match *self {
            Command::GeneralStatus => {
                r.push(0x47u8);
                r.push(0x53u8);
            },
            Command::BatteryStatus => {
                r.push(0x42u8);
                r.push(0x56u8);
            },
            Command::OperationalModeStatus => {
                r.push(0x4du8);
                r.push(0x4fu8);
                r.push(0x44u8);
            },
        }
        r.push(0x0du8);
        proof {
            assert(r@ =~= self.spec_wire_bytes());
        }
        r
    }
}

/// Distinct names select distinct queries, and distinct queries have
/// distinct wire requests: the encoder is one-to-one in both directions.
pub proof fn lemma_commands_distinct()
    ensures
        "general"@ != "battery"@,
        "general"@ != "operation"@,
        "battery"@ != "operation"@,
        "QGS\r"@ != "QBV\r"@,
        "QGS\r"@ != "QMOD\r"@,
        "QBV\r"@ != "QMOD\r"@,
        forall|a: Command, b: Command| a.spec_name() == b.spec_name() ==> a == b,
        forall|a: Command, b: Command| a.spec_wire() == b.spec_wire() ==> a == b,
{
    reveal_strlit("general");
    reveal_strlit("battery");
    reveal_strlit("operation");
    reveal_strlit("QGS\r");
    reveal_strlit("QBV\r");
    reveal_strlit("QMOD\r");
    assert("general"@[0] != "battery"@[0]);
    assert("general"@.len() != "operation"@.len());
    assert("battery"@.len() != "operation"@.len());
    assert("QGS\r"@[1] != "QBV\r"@[1]);
    assert("QGS\r"@.len() != "QMOD\r"@.len());
    assert("QBV\r"@.len() != "QMOD\r"@.len());
}

/// The wire request's bytes are exactly its characters: the protocol is
/// plain ASCII, one byte per character.
pub proof fn lemma_wire_bytes_match_text(c: Command)
    ensures
        c.spec_wire_bytes() == Seq::new(c.spec_wire().len(), |i: int| c.spec_wire()[i] as u8),
{
    reveal_strlit("QGS\r");
    reveal_strlit("QBV\r");
    reveal_strlit("QMOD\r");
    match c {
        Command::GeneralStatus => {
            assert(c.spec_wire_bytes() =~= Seq::new(
                c.spec_wire().len(),
                |i: int| c.spec_wire()[i] as u8,
            ));
        },
        Command::BatteryStatus => {
            assert(c.spec_wire_bytes() =~= Seq::new(
                c.spec_wire().len(),
                |i: int| c.spec_wire()[i] as u8,
            ));
        },
        Command::OperationalModeStatus => {
            assert(c.spec_wire_bytes() =~= Seq::new(
                c.spec_wire().len(),
                |i: int| c.spec_wire()[i] as u8,
            ));
        },
    }
}

/// Character-by-character string comparison, so that equality of the
/// views follows from the result.
fn str_eq(a: &str, b: &str) -> (r: bool)
    ensures
        r <==> a@ == b@,
{
    let alen = a.unicode_len();
    let blen = b.unicode_len();
    if alen != blen {
        return false;
    }
    let mut i: usize = 0;
    while i < alen
        invariant
            alen == a@.len(),
            blen == b@.len(),
            alen == blen,
            i <= alen,
            forall|j: int| 0 <= j < i ==> a@[j] == b@[j],
        decreases alen - i,
    {
        if a.get_char(i) != b.get_char(i) {
            return false;
        }
        i += 1;
    }
    proof {
        assert(a@ =~= b@);
    }
    true
}

} // verus!
