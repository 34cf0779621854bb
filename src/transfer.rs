use vstd::prelude::*;
use vstd::math::min;
use vstd::utf8::encode_utf8;
use crate::currentlogs::CurrentLog;
use crate::text::{dec, fixed, pow10, push_dec, push_fixed};

verus! {

/// Most samples that one delivery carries.
pub const CHUNK: usize = 64;

/// JSON object of one sample.
pub open spec fn sample_json(x: CurrentLog) -> Seq<char> {
    "{ \"measurement\": \"currentlogger\", \"tag\": \"currentch1\", \"timestamp\": "@
        + dec(x.clock as nat) + ", \"current\": "@ + fixed(x.current as int, 5)
        + ", \"voltage\": "@ + fixed(x.voltage as int, 5) + ",  \"power\": "@
        + fixed(x.power as int, 5) + ", \"bat\": "@ + fixed(x.battery as int, 2) + " }"@
}

/// The JSON objects of `items`, in order, separated by commas.
pub open spec fn joined(items: Seq<CurrentLog>) -> Seq<char>
    decreases items.len(),
{
    if items.len() == 0 {
        Seq::empty()
    } else if items.len() == 1 {
        sample_json(items[0])
    } else {
        joined(items.drop_last()) + ","@ + sample_json(items.last())
    }
}

/// The JSON array body sent for `items`.
pub open spec fn payload(items: Seq<CurrentLog>) -> Seq<char> {
    "[ "@ + joined(items) + "]"@
}

/// The HTTP request that delivers `body` to `server`; its Content-Length is
/// the byte length of the body in UTF-8.
pub open spec fn http_request(server: Seq<char>, body: Seq<char>) -> Seq<char> {
    "POST / HTTP/1.1\r\nHost: "@ + server
        + "\r\nContent-Type: application/json\r\nAccept: */*\r\nUser-Agent: temp-logger\r\nContent-Length:"@
        + dec(encode_utf8(body).len()) + "\r\n\r\n"@ + body
}

pub struct TransferView {
    pub body: Seq<char>,
    pub in_flight: bool,
    pub server: Seq<char>,
}

/// A claim of `data` by a pipeline in state `tx`: how many samples it
/// takes from the head, and the pipeline's state afterwards.
pub open spec fn claim(tx: TransferView, data: Seq<CurrentLog>) -> (nat, TransferView) {
    if data.len() == 0 || tx.in_flight {
        (0, tx)
    } else {
        let n = min(data.len() as int, CHUNK as int) as nat;
        (n, TransferView { body: payload(data.take(n as int)), in_flight: true, server: tx.server })
    }
}

/// At most one delivery is outstanding: a claim made while one is in
/// flight takes nothing and changes nothing, a claim never takes more than
/// `CHUNK` samples, and after a claim that took samples every further claim
/// takes none until the delivery completes.
pub proof fn lemma_claim_is_exclusive(tx: TransferView, first: Seq<CurrentLog>, second: Seq<CurrentLog>)
    ensures
        tx.in_flight ==> claim(tx, first) == (0nat, tx),
        claim(tx, first).0 <= CHUNK,
        claim(tx, first).0 <= first.len(),
        claim(tx, first).0 > 0 ==> claim(claim(tx, first).1, second).0 == 0,
{
}

/// State of the delivery pipeline: the serialized chunk waiting for
/// delivery and whether a delivery is outstanding.
pub struct Transfer {
    body: String,
    txreq: bool,
    server: String,
}

impl View for Transfer {
    type V = TransferView;

    closed spec fn view(&self) -> TransferView {
        TransferView { body: self.body@, in_flight: self.txreq, server: self.server@ }
    }
}

/// Appends the JSON object of `x`.
pub fn push_sample(s: &mut String, x: &CurrentLog)
    ensures
        final(s)@ == old(s)@ + sample_json(*x),
{
    proof {
        reveal_with_fuel(pow10, 6);
    }
    s.append("{ \"measurement\": \"currentlogger\", \"tag\": \"currentch1\", \"timestamp\": ");
    push_dec(s, x.clock as u64);
    s.append(", \"current\": ");
    push_fixed(s, x.current, 5, 100000);
    s.append(", \"voltage\": ");
    push_fixed(s, x.voltage, 5, 100000);
    s.append(",  \"power\": ");
    push_fixed(s, x.power, 5, 100000);
    s.append(", \"bat\": ");
    push_fixed(s, x.battery, 2, 100);
    s.append(" }");
    assert(s@ =~= old(s)@ + sample_json(*x));
}

/// The JSON array of `items`.
pub fn serialize(items: &[CurrentLog]) -> (r: String)
    ensures
        r@ == payload(items@),
{
    let mut s = String::new();
    s.append("[ ");
    let mut i: usize = 0;
    while i < items.len()
        invariant
            i <= items@.len(),
            s@ == "[ "@ + joined(items@.take(i as int)),
        decreases items@.len() - i,
    {
        let ghost before = s@;
        if i > 0 {
            s.append(",");
        }
        push_sample(&mut s, &items[i]);
        proof {
            let t = items@.take(i as int + 1);
            assert(t.drop_last() =~= items@.take(i as int));
            if i == 0 {
                assert(joined(items@.take(0)) =~= Seq::<char>::empty());
            }
        }
        assert(s@ =~= "[ "@ + joined(items@.take(i as int + 1)));
        i = i + 1;
    }
    assert(items@.take(items@.len() as int) =~= items@);
    s.append("]");
    assert(s@ =~= payload(items@));
    s
}

impl Transfer {
    pub fn new(server: String) -> (r: Self)
        ensures
            r@ == (TransferView { body: Seq::empty(), in_flight: false, server: server@ }),
    {
        Transfer { body: String::new(), txreq: false, server }
    }

    /// Claims the first `min(len, CHUNK)` samples of `data` for delivery and
    /// returns how many were claimed; claims nothing while a delivery is
    /// outstanding or when `data` is empty.
    pub fn set_transfer_data(&mut self, data: &Vec<CurrentLog>) -> (r: usize)
        ensures
            (r as nat, final(self)@) == claim(old(self)@, data@),
    {
        if data.len() == 0 {
            return 0;
        }
        if self.txreq {
            return 0;
        }
        let count: usize = if data.len() < CHUNK {
            data.len()
        } else {
            CHUNK
        };
        let chunk = data.as_slice().split_at(count).0;
        assert(chunk@ =~= data@.take(count as int));
        self.body = serialize(chunk);
        self.txreq = true;
        count
    }

    /// The request to send while a delivery is outstanding.
    pub fn request(&self) -> (r: Option<String>)
        ensures
            self@.in_flight ==> r is Some && r->0@ == http_request(self@.server, self@.body),
            !self@.in_flight ==> r is None,
    {
        if !self.txreq {
            return None;
        }
        let mut s = String::new();
        s.append("POST / HTTP/1.1\r\nHost: ");
        s.append(self.server.as_str());
        s.append(
            "\r\nContent-Type: application/json\r\nAccept: */*\r\nUser-Agent: temp-logger\r\nContent-Length:",
        );
        let n = self.body.as_str().as_bytes().len();
        push_dec(&mut s, n as u64);
        s.append("\r\n\r\n");
        s.append(self.body.as_str());
        assert(s@ =~= http_request(self@.server, self@.body));
        Some(s)
    }

    /// Ends the outstanding delivery, whether it succeeded or failed: the
    /// chunk is not kept for another attempt.
    pub fn complete_delivery(&mut self)
        ensures
            final(self)@ == (TransferView { in_flight: false, ..old(self)@ }),
    {
        self.txreq = false;
    }

    pub fn in_flight(&self) -> (r: bool)
        ensures
            r == self@.in_flight,
    {
        self.txreq
    }
}

} // verus!
