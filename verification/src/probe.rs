//! The readiness probe: whether a service's port is bound, going by the
//! table of sockets that the operating system printed.
//!
//! The table has one socket to a row: the protocol, the local address,
//! the foreign address, the state and the owning process, with whitespace
//! between them. A port is bound where a row is in the listening state
//! and its local address ends with a colon and the port's numeral. A
//! socket in another state does not count, nor does the port of a foreign
//! address. The local address ends where whitespace follows, which keeps
//! a port from answering for a longer one that begins or ends with it.
//!
//! The probe looks once. It does not wait and does not try again.

use crate::text::{
    append_chars, contains, decimal, decimal_chars, ends_with, find, has_suffix, is_digit,
    is_whitespace, lemma_decimal, lemma_line_end, lemma_token_end, lemma_whitespace_end, line_end,
    occurs_at, scan_line, scan_token, skip_whitespace, slice_chars, to_chars, token_end,
    whitespace_end,
};
use vstd::prelude::*;
use vstd::string::*;

verus! {

/// The state of a socket that listens, as the table names it.
pub open spec fn listening_state() -> Seq<char> {
    "LISTENING"@
}

/// How a local address ends whose port is `port`: with a colon and the
/// port's decimal numeral.
pub open spec fn port_suffix(port: u16) -> Seq<char> {
    seq![':'] + decimal(port as nat)
}

/// Where the local address of a row begins: at the second run of
/// characters that are no whitespace.
pub open spec fn local_address_start(row: Seq<char>) -> int {
    whitespace_end(row, token_end(row, whitespace_end(row, 0)))
}

/// Where the local address of a row ends.
pub open spec fn local_address_end(row: Seq<char>) -> int {
    token_end(row, local_address_start(row))
}

/// The local address of a row.
pub open spec fn local_address(row: Seq<char>) -> Seq<char> {
    row.subrange(local_address_start(row), local_address_end(row))
}

/// What stands in a row behind its local address.
pub open spec fn behind_local_address(row: Seq<char>) -> Seq<char> {
    row.subrange(local_address_end(row), row.len() as int)
}

/// Whether a row of the table is a socket that listens on `port`: its
/// local address ends with the port, and the listening state stands
/// behind that address.
pub open spec fn row_listens(row: Seq<char>, port: u16) -> bool {
    &&& ends_with(local_address(row), port_suffix(port))
    &&& contains(behind_local_address(row), listening_state())
}

/// Whether a row of `table` begins at `start`: at the beginning of the
/// table and behind every line feed.
pub open spec fn is_row_start(table: Seq<char>, start: int) -> bool {
    0 <= start <= table.len() && (start == 0 || table[start - 1] == '\n')
}

/// The row of `table` that begins at `start`.
pub open spec fn row_at(table: Seq<char>, start: int) -> Seq<char> {
    table.subrange(start, line_end(table, start))
}

/// Whether some row of the table is a socket that listens on `port`.
pub open spec fn port_listening(table: Seq<char>, port: u16) -> bool {
    exists|start: int| is_row_start(table, start) && row_listens(#[trigger] row_at(table, start), port)
}

/// How a local address ends whose port is `port`.
pub fn port_suffix_chars(port: u16) -> (suffix: Vec<char>)
    ensures
        suffix@ == port_suffix(port),
{
    let mut suffix: Vec<char> = Vec::new();
    suffix.push(':');
    let digits = decimal_chars(port as u64);
    append_chars(&mut suffix, &digits);
    suffix
}

/// Whether a row of the table is a socket that listens on `port`.
pub fn row_is_listening(row: &Vec<char>, port: u16) -> (listening: bool)
    ensures
        listening == row_listens(row@, port),
{
    let protocol = skip_whitespace(row, 0);
    let protocol_end = scan_token(row, protocol);
    let start = skip_whitespace(row, protocol_end);
    let end = scan_token(row, start);
    let local = slice_chars(row, start, end);
    let suffix = port_suffix_chars(port);
    if !has_suffix(&local, &suffix) {
        return false;
    }
    let behind = slice_chars(row, end, row.len());
    let state = to_chars("LISTENING");
    find(&behind, &state).is_some()
}

/// Whether some row of the table is a socket that listens on `port`.
pub fn is_listening(table: &str, port: u16) -> (listening: bool)
    ensures
        listening == port_listening(table@, port),
{
    let text = to_chars(table);
    let mut start: usize = 0;
    loop
        invariant
            is_row_start(text@, start as int),
            text@ == table@,
            forall|earlier: int|
                is_row_start(text@, earlier) && earlier < start ==> !row_listens(
                    #[trigger] row_at(text@, earlier),
                    port,
                ),
        decreases text.len() - start,
    {
        let end = scan_line(&text, start);
        proof {
            lemma_line_end(text@, start as int);
        }
        let row = slice_chars(&text, start, end);
        if row_is_listening(&row, port) {
            assert(row_listens(row_at(text@, start as int), port));
            return true;
        }
        if end == text.len() {
            assert forall|other: int| is_row_start(text@, other) implies !row_listens(
                #[trigger] row_at(text@, other),
                port,
            ) by {
                if other > start {
                    assert(text@[other - 1] != '\n');
                }
            }
            return false;
        }
        assert forall|earlier: int| is_row_start(text@, earlier) && earlier < end + 1 implies
            !row_listens(#[trigger] row_at(text@, earlier), port) by {
            if earlier > start {
                assert(text@[earlier - 1] != '\n');
            }
        }
        start = end + 1;
    }
}

/// A row listens on one port only: a row whose local address ends with
/// one port does not answer for another, be it shorter or longer.
pub proof fn law_row_listens_on_one_port(row: Seq<char>, port: u16, other: u16)
    requires
        row_listens(row, port),
        row_listens(row, other),
    ensures
        port == other,
{
    let local = local_address(row);
    let mine = port_suffix(port);
    let theirs = port_suffix(other);
    lemma_decimal(port as nat);
    lemma_decimal(other as nat);
    let at_mine = local.len() - mine.len();
    let at_theirs = local.len() - theirs.len();
    assert forall|k: int| 0 <= k < mine.len() implies local[at_mine + k] == mine[k] by {
        assert(local.subrange(at_mine, at_mine + mine.len())[k] == local[at_mine + k]);
    }
    assert forall|k: int| 0 <= k < theirs.len() implies local[at_theirs + k] == theirs[k] by {
        assert(local.subrange(at_theirs, at_theirs + theirs.len())[k] == local[at_theirs + k]);
    }
    assert(mine[0] == ':');
    assert(theirs[0] == ':');
    if mine.len() < theirs.len() {
        let inside = at_mine - at_theirs;
        assert(local[at_theirs + inside] == theirs[inside]);
        assert(local[at_mine + 0] == mine[0]);
        assert(theirs[inside] == decimal(other as nat)[inside - 1]);
        assert(is_digit(decimal(other as nat)[inside - 1]));
    } else if theirs.len() < mine.len() {
        let inside = at_theirs - at_mine;
        assert(local[at_mine + inside] == mine[inside]);
        assert(local[at_theirs + 0] == theirs[0]);
        assert(mine[inside] == decimal(port as nat)[inside - 1]);
        assert(is_digit(decimal(port as nat)[inside - 1]));
    } else {
        assert(mine =~= theirs);
        assert(decimal(port as nat) =~= mine.subrange(1, mine.len() as int));
        assert(decimal(other as nat) =~= theirs.subrange(1, theirs.len() as int));
    }
}

/// In a row that listens on a port, the port stands before whitespace:
/// the colon and the numeral end the local address, whitespace follows
/// them, and the listening state stands behind.
pub proof fn law_listening_row_delimits_port(row: Seq<char>, port: u16)
    requires
        row_listens(row, port),
    ensures
        ({
            let end = local_address_end(row);
            &&& occurs_at(row, port_suffix(port), end - port_suffix(port).len())
            &&& 0 < end < row.len()
            &&& is_whitespace(row[end])
            &&& contains(row, listening_state())
        }),
{
    reveal_strlit("LISTENING");
    lemma_decimal(port as nat);
    lemma_whitespace_end(row, 0);
    lemma_token_end(row, whitespace_end(row, 0));
    lemma_whitespace_end(row, token_end(row, whitespace_end(row, 0)));
    let start = local_address_start(row);
    lemma_token_end(row, start);
    let end = local_address_end(row);
    let local = local_address(row);
    let suffix = port_suffix(port);
    let behind = behind_local_address(row);
    let at = choose|at: int| occurs_at(behind, listening_state(), at);
    assert(row.subrange(end + at, end + at + listening_state().len()) =~= behind.subrange(
        at,
        at + listening_state().len(),
    ));
    assert(occurs_at(row, listening_state(), end + at));
    assert(row.subrange(end - suffix.len(), end) =~= local.subrange(
        local.len() - suffix.len(),
        local.len() as int,
    ));
}

/// A table lists a port as listening only in a row that holds the
/// listening state: a table without that state lists no port.
pub proof fn law_listening_needs_state(table: Seq<char>, port: u16)
    requires
        !contains(table, listening_state()),
    ensures
        !port_listening(table, port),
{
    assert forall|start: int| is_row_start(table, start) implies !row_listens(
        #[trigger] row_at(table, start),
        port,
    ) by {
        let row = row_at(table, start);
        if row_listens(row, port) {
            law_listening_row_delimits_port(row, port);
            lemma_line_end(table, start);
            let at = choose|at: int| occurs_at(row, listening_state(), at);
            assert(table.subrange(start + at, start + at + listening_state().len())
                =~= row.subrange(at, at + listening_state().len()));
            assert(occurs_at(table, listening_state(), start + at));
        }
    }
}

} // verus!
