//! The status reporter: renders the on-chain ring contents and the local
//! proof store's window as one human-readable snapshot, with the clients
//! ordered by ring-slot id.

use vstd::prelude::*;
use vstd::multiset::Multiset;
use vstd::string::StringExecFns;

use crate::types::{Client, ClientInfo};

verus! {

/// The decimal digit character of `d`.
pub open spec fn dec_digit(d: int) -> char {
    if d == 0 {
        '0'
    } else if d == 1 {
        '1'
    } else if d == 2 {
        '2'
    } else if d == 3 {
        '3'
    } else if d == 4 {
        '4'
    } else if d == 5 {
        '5'
    } else if d == 6 {
        '6'
    } else if d == 7 {
        '7'
    } else if d == 8 {
        '8'
    } else {
        '9'
    }
}

/// The decimal rendering of a non-negative integer.
pub open spec fn dec_seq(n: int) -> Seq<char>
    recommends
        n >= 0,
    decreases n,
{
    if n < 10 {
        seq![dec_digit(n)]
    } else {
        dec_seq(n / 10).push(dec_digit(n % 10))
    }
}

/// The one-character string of a decimal digit.
fn digit_literal(d: u64) -> (s: &'static str)
    requires
        d < 10,
    ensures
        s@ == seq![dec_digit(d as int)],
{
    proof {
        reveal_strlit("0");
        reveal_strlit("1");
        reveal_strlit("2");
        reveal_strlit("3");
        reveal_strlit("4");
        reveal_strlit("5");
        reveal_strlit("6");
        reveal_strlit("7");
        reveal_strlit("8");
        reveal_strlit("9");
    }
    match d {
        0 => "0",
        1 => "1",
        2 => "2",
        3 => "3",
        4 => "4",
        5 => "5",
        6 => "6",
        7 => "7",
        8 => "8",
        _ => "9",
    }
}

/// Renders an integer in decimal.
pub fn dec_u64(n: u64) -> (s: String)
    ensures
        s@ == dec_seq(n as int),
    decreases n,
{
    if n < 10 {
        String::from_str(digit_literal(n))
    } else {
        let mut s = dec_u64(n / 10);
        s.append(digit_literal(n % 10));
        proof {
            assert(s@ =~= dec_seq(n as int / 10).push(dec_digit(n as int % 10)));
        }
        s
    }
}

/// The clients come in ascending ring-slot id order.
pub open spec fn sorted_by_id(cs: Seq<Client>) -> bool {
    forall|i: int, j: int| 0 <= i < j < cs.len() ==> (#[trigger] cs[i]).id <= (#[trigger] cs[j]).id
}

/// Reorders the fetched clients by ascending ring-slot id, keeping exactly
/// the same records.
pub fn sort_clients_by_id(input: Vec<Client>) -> (out: Vec<Client>)
    ensures
        out@.to_multiset() == input@.to_multiset(),
        sorted_by_id(out@),
{
    broadcast use vstd::seq_lib::group_to_multiset_ensures;

    let mut rest = input;
    let mut out: Vec<Client> = Vec::new();
    while rest.len() > 0
        invariant
            out@.to_multiset().add(rest@.to_multiset()) == input@.to_multiset(),
            sorted_by_id(out@),
            forall|i: int, j: int| 0 <= i < out@.len() && 0 <= j < rest@.len() ==> (
            #[trigger] out@[i]).id <= (#[trigger] rest@[j]).id,
        decreases rest@.len(),
    {
        let mut m: usize = 0;
        let mut k: usize = 1;
        while k < rest.len()
            invariant
                m < k <= rest@.len() || (k <= rest@.len() && m == 0),
                m < rest@.len(),
                rest@.len() > 0,
                forall|j: int| 0 <= j < k ==> (#[trigger] rest@[j]).id >= rest@[m as int].id,
            decreases rest@.len() - k,
        {
            if rest[k].id < rest[m].id {
                m = k;
            }
            k = k + 1;
        }
        let ghost rest0 = rest@;
        let ghost out0 = out@;
        let picked = rest.remove(m);
        out.push(picked);
        proof {
            vstd::seq_lib::to_multiset_build(out0, picked);
            vstd::seq_lib::to_multiset_remove(rest0, m as int);
            vstd::seq_lib::to_multiset_contains(rest0, picked);
            assert(out@ == out0.push(picked));
            assert(rest@ == rest0.remove(m as int));
            assert(rest0[m as int] == picked);
            assert(rest0.contains(picked));
            assert(rest0.to_multiset().count(picked) > 0);
            assert(out@.to_multiset().add(rest@.to_multiset()) =~= input@.to_multiset());
            assert forall|i: int, j: int|
                0 <= i < out@.len() && 0 <= j < rest@.len() implies (#[trigger] out@[i]).id <= (
            #[trigger] rest@[j]).id by {
                assert(rest@[j] == rest0[if j < m { j } else { j + 1 }]);
            }
        }
    }
    proof {
        vstd::seq_lib::to_multiset_len(rest@);
        vstd::multiset::lemma_multiset_empty_len(rest@.to_multiset());
        assert(rest@.to_multiset() =~= Multiset::empty());
        assert(out@.to_multiset() =~= input@.to_multiset());
    }
    out
}

/// One rendered line per on-chain client record.
pub open spec fn client_line(c: Client) -> Seq<char> {
    "client#"@ + dec_seq(c.id as int) + " ["@ + dec_seq(c.minimal_slot as int) + ", "@ + dec_seq(
        c.maximal_slot as int,
    ) + "]\n"@
}

/// The rendered client lines, in sequence order.
pub open spec fn clients_text(cs: Seq<Client>) -> Seq<char>
    decreases cs.len(),
{
    if cs.len() == 0 {
        Seq::empty()
    } else {
        clients_text(cs.drop_last()) + client_line(cs.last())
    }
}

/// The rendered metadata line.
pub open spec fn info_line(info: ClientInfo) -> Seq<char> {
    "info: last#"@ + dec_seq(info.last_id as int) + ", minimal updates count: "@ + dec_seq(
        info.minimal_updates_count as int,
    ) + "\n"@
}

/// The rendered local store window.
pub open spec fn native_line(base: Option<u64>, tip: Option<u64>) -> Seq<char> {
    match (base, tip) {
        (Option::Some(b), Option::Some(t)) => "native status: ["@ + dec_seq(b as int) + ", "@
            + dec_seq(t as int) + "]"@,
        _ => "native status: NONE"@,
    }
}

/// The full snapshot text over an already sorted client list.
pub open spec fn status_text(
    onchain: Option<(Seq<Client>, ClientInfo)>,
    base: Option<u64>,
    tip: Option<u64>,
) -> Seq<char> {
    match onchain {
        Option::Some((cs, info)) => "on-chain status:\n"@ + clients_text(cs) + info_line(info)
            + native_line(base, tip),
        Option::None => "on-chain status: NONE, "@ + native_line(base, tip),
    }
}

/// Renders the rendered client lines of a vector, in order.
fn render_clients(cs: &Vec<Client>) -> (r: String)
    ensures
        r@ == clients_text(cs@),
{
    let mut r = String::new();
    let mut i: usize = 0;
    while i < cs.len()
        invariant
            i <= cs@.len(),
            r@ == clients_text(cs@.take(i as int)),
        decreases cs@.len() - i,
    {
        r.append("client#");
        let id_text = dec_u64(cs[i].id as u64);
        r.append(id_text.as_str());
        r.append(" [");
        let min_text = dec_u64(cs[i].minimal_slot);
        r.append(min_text.as_str());
        r.append(", ");
        let max_text = dec_u64(cs[i].maximal_slot);
        r.append(max_text.as_str());
        r.append("]\n");
        proof {
            assert(cs@.take(i as int + 1).drop_last() =~= cs@.take(i as int));
            assert(cs@.take(i as int + 1).last() == cs@[i as int]);
            assert(r@ =~= clients_text(cs@.take(i as int + 1)));
        }
        i = i + 1;
    }
    proof {
        assert(cs@.take(cs@.len() as int) =~= cs@);
    }
    r
}

/// Renders the combined status snapshot: the on-chain ring contents (sorted
/// by ring-slot id; `NONE` when no family is configured or found) and the
/// local proof store's window (`NONE` when empty).
pub fn render_status_log(
    onchain: Option<(Vec<Client>, ClientInfo)>,
    base: Option<u64>,
    tip: Option<u64>,
) -> (r: String)
    ensures
        onchain is None ==> r@ == status_text(None, base, tip),
        onchain matches Some(oc) ==> exists|sorted: Seq<Client>|
            {
                &&& (#[trigger] sorted.to_multiset()) == oc.0@.to_multiset()
                &&& sorted_by_id(sorted)
                &&& r@ == status_text(Some((sorted, oc.1)), base, tip)
            },
{
    match onchain {
        None => {
            let mut r = String::from_str("on-chain status: NONE, ");
            let native = render_native(base, tip);
            r.append(native.as_str());
            r
        },
        Some((clients, info)) => {
            let sorted = sort_clients_by_id(clients);
            let mut r = String::from_str("on-chain status:\n");
            let body = render_clients(&sorted);
            r.append(body.as_str());
            r.append("info: last#");
            let last_text = dec_u64(info.last_id as u64);
            r.append(last_text.as_str());
            r.append(", minimal updates count: ");
            let muc_text = dec_u64(info.minimal_updates_count as u64);
            r.append(muc_text.as_str());
            r.append("\n");
            let native = render_native(base, tip);
            r.append(native.as_str());
            proof {
                assert(r@ =~= status_text(Some((sorted@, info)), base, tip));
            }
            r
        },
    }
}

/// Renders the local store window line.
fn render_native(base: Option<u64>, tip: Option<u64>) -> (r: String)
    ensures
        r@ == native_line(base, tip),
{
    match (base, tip) {
        (Option::Some(b), Option::Some(t)) => {
            let mut r = String::from_str("native status: [");
            let b_text = dec_u64(b);
            r.append(b_text.as_str());
            r.append(", ");
            let t_text = dec_u64(t);
            r.append(t_text.as_str());
            r.append("]");
            proof {
                assert(r@ =~= native_line(Some(b), Some(t)));
            }
            r
        },
        _ => String::from_str("native status: NONE"),
    }
}

} // verus!
