//! Fresh session identifiers.
use ulid::Ulid;
use vstd::arithmetic::power::pow;
use vstd::prelude::*;

use crate::names::SessionId;
use crate::order::{
    ascending, lemma_notation_len, lemma_notation_order, lemma_precedes_asymmetric,
    lemma_precedes_parts, precedes,
};
use crate::text::{join, notation};

verus! {

/// The symbols of Crockford's Base32 in ascending order.
pub open spec fn base32_symbols() -> Seq<char> {
    "0123456789ABCDEFGHJKMNPQRSTVWXYZ"@
}

/// A ULID as text: its 128 bits in 26 symbols of Crockford's Base32.
pub open spec fn ulid_text(ulid: u128) -> Seq<char> {
    notation(ulid as nat, base32_symbols(), 26)
}

/// The identifier of a session that was given a ULID.
pub open spec fn session_id_text(ulid: u128) -> Seq<char> {
    "ses_"@ + ulid_text(ulid)
}

/// `Ulid::new` takes the time in milliseconds for its high 48 bits and chance for the low 80.
/// Nothing is said of the number that comes out.
#[verifier::external_body]
fn fresh_ulid() -> (ulid: u128) {
    Ulid::new().0
}

/// `Ulid::to_string` writes the 128 bits in 26 symbols of Crockford's Base32, high bits first.
#[verifier::external_body]
fn print_ulid(ulid: u128) -> (text: String)
    ensures
        text@ == ulid_text(ulid),
{
    Ulid(ulid).to_string()
}

/// Whether the ULID is one that may come out when a fresh one is asked for.
pub closed spec fn is_drawn(ulid: u128) -> bool {
    call_ensures(fresh_ulid, (), ulid)
}

impl SessionId {
    /// Creates a lexicographically sortable session identifier.
    pub fn new() -> (id: SessionId)
        ensures
            exists|ulid: u128| is_drawn(ulid) && id@ == #[trigger] session_id_text(ulid),
    {
        let ulid: u128 = fresh_ulid();
        assert(is_drawn(ulid));
        SessionId::from_ulid(ulid)
    }

    /// The session identifier for a ULID.
    pub fn from_ulid(ulid: u128) -> (id: SessionId)
        ensures
            id@ == session_id_text(ulid),
    {
        SessionId::from(join("ses_", print_ulid(ulid).as_str()))
    }
}

impl Default for SessionId {
    fn default() -> (id: SessionId)
        ensures
            call_ensures(SessionId::new, (), id),
            exists|ulid: u128| is_drawn(ulid) && id@ == #[trigger] session_id_text(ulid),
    {
        SessionId::new()
    }
}

/// A ULID is drawn exactly if the generator may have given it, in all its bits.
proof fn law_ulids_are_drawn_from_the_generator(ulid: u128)
    ensures
        is_drawn(ulid) <==> call_ensures(fresh_ulid, (), ulid),
{
}

proof fn lemma_base32_symbols()
    ensures
        base32_symbols().len() == 32,
        ascending(base32_symbols()),
{
    reveal_strlit("0123456789ABCDEFGHJKMNPQRSTVWXYZ");
}

/// Session identifiers sort as the ULIDs they were made from, and different ULIDs make different
/// identifiers. One from an earlier millisecond comes first: the high 48 bits of a ULID are its
/// time.
pub proof fn law_session_ids_sort_as_ulids(u: u128, v: u128)
    ensures
        precedes(session_id_text(u), session_id_text(v)) <==> u < v,
        (u >> 80) < (v >> 80) ==> precedes(session_id_text(u), session_id_text(v)),
        session_id_text(u) == session_id_text(v) <==> u == v,
{
    lemma_base32_symbols();
    assert(pow(32, 26) > u128::MAX) by {
        reveal(pow);
        reveal_with_fuel(pow, 27);
    }
    lemma_notation_order(u as nat, v as nat, base32_symbols(), 26);
    lemma_precedes_parts("ses_"@, "ses_"@, ulid_text(u), ulid_text(v));
    lemma_precedes_asymmetric("ses_"@, "ses_"@);
    assert((u >> 80) < (v >> 80) ==> u < v) by (bit_vector);
}

/// A fresh session identifier has thirty characters, and is accepted as one.
pub proof fn law_session_ids_are_not_blank(u: u128)
    ensures
        session_id_text(u).len() == 30,
        !crate::text::is_blank(session_id_text(u)),
{
    lemma_base32_symbols();
    lemma_notation_len(u as nat, base32_symbols(), 26);
    reveal_strlit("ses_");
    assert(session_id_text(u)[0] == 's');
    assert(!crate::text::is_white_space('s'));
}

} // verus!
