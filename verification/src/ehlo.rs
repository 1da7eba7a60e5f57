//! The capability ledger: the structured record of what an EHLO reply
//! advertised.  A ledger exists only after an EHLO has completed, and a
//! completed STARTTLS upgrade discards it until the mandatory re-EHLO.

use vstd::prelude::*;

use crate::response::{Response, ResponseModel};

verus! {

/// The ehlo-keyword of a reply line: its bytes up to the first space.
pub open spec fn keyword_of(l: Seq<u8>) -> Seq<u8>
    decreases l.len(),
{
    if l.len() == 0 {
        l
    } else if l[0] == 32 {
        Seq::empty()
    } else {
        seq![l[0]] + keyword_of(l.skip(1))
    }
}

/// The ledger a positive EHLO reply gives rise to: the first line names the
/// server domain, every further line advertises one capability keyword.
pub open spec fn ehlo_model_of(r: ResponseModel) -> EhloModel {
    EhloModel {
        domain: if r.lines.len() > 0 {
            keyword_of(r.lines[0])
        } else {
            Seq::empty()
        },
        caps: if r.lines.len() > 0 {
            r.lines.skip(1).map_values(|l: Seq<u8>| keyword_of(l))
        } else {
            Seq::empty()
        },
    }
}

/// Capability ledger populated by one EHLO exchange.
pub struct EhloData {
    pub domain: Vec<u8>,
    pub capabilities: Vec<Vec<u8>>,
}

/// Mathematical image of an [`EhloData`].
#[verifier::ext_equal]
pub struct EhloModel {
    pub domain: Seq<u8>,
    pub caps: Seq<Seq<u8>>,
}

impl View for EhloData {
    type V = EhloModel;

    open spec fn view(&self) -> EhloModel {
        EhloModel {
            domain: self.domain@,
            caps: self.capabilities@.map_values(|l: Vec<u8>| l@),
        }
    }
}

/// Copies the ehlo-keyword out of one reply line.
pub fn keyword(line: &Vec<u8>) -> (r: Vec<u8>)
    ensures
        r@ == keyword_of(line@),
{
    let ghost whole = line@;
    let mut r: Vec<u8> = Vec::new();
    let mut i: usize = 0;
    proof {
        assert(whole.skip(0) =~= whole);
        assert(r@ + keyword_of(whole) =~= keyword_of(whole));
    }
    while i < line.len()
        invariant
            i <= line.len(),
            whole == line@,
            keyword_of(whole) == r@ + keyword_of(whole.skip(i as int)),
        decreases line.len() - i,
    {
        let b = line[i];
        if b == 32 {
            proof {
                assert(keyword_of(whole.skip(i as int)) =~= Seq::<u8>::empty());
                assert(r@ + Seq::<u8>::empty() =~= r@);
            }
            return r;
        }
        proof {
            assert(whole.skip(i as int).skip(1) =~= whole.skip(i as int + 1));
            assert(keyword_of(whole.skip(i as int)) =~= seq![whole[i as int]] + keyword_of(
                whole.skip(i as int + 1),
            ));
            assert(r@ + keyword_of(whole.skip(i as int)) =~= r@.push(whole[i as int])
                + keyword_of(whole.skip(i as int + 1)));
        }
        r.push(b);
        i = i + 1;
    }
    proof {
        assert(whole.skip(line@.len() as int) =~= Seq::<u8>::empty());
        assert(keyword_of(whole) =~= r@);
    }
    r
}

/// Whether two byte strings are equal.
pub fn bytes_eq(a: &[u8], b: &[u8]) -> (r: bool)
    ensures
        r == (a@ == b@),
{
    if a.len() != b.len() {
        return false;
    }
    let mut i: usize = 0;
    while i < a.len()
        invariant
            i <= a.len(),
            a@.len() == b@.len(),
            forall|j: int| 0 <= j < i ==> a@[j] == b@[j],
        decreases a.len() - i,
    {
        if a[i] != b[i] {
            return false;
        }
        i = i + 1;
    }
    proof {
        assert(a@ =~= b@);
    }
    true
}

impl EhloData {
    /// Derives the ledger from a (positive) EHLO reply.
    pub fn from_response(resp: &Response) -> (r: EhloData)
        ensures
            r@ == ehlo_model_of(resp@),
    {
        let domain: Vec<u8> = if resp.lines.len() > 0 {
            keyword(&resp.lines[0])
        } else {
            Vec::new()
        };
        let mut caps: Vec<Vec<u8>> = Vec::new();
        if resp.lines.len() > 0 {
            let mut i: usize = 1;
            while i < resp.lines.len()
                invariant
                    1 <= i <= resp.lines.len(),
                    resp@.lines.len() == resp.lines.len(),
                    caps.len() == i - 1,
                    forall|j: int| 0 <= j < i - 1 ==> caps@[j]@ == keyword_of(resp@.lines[j + 1]),
                decreases resp.lines.len() - i,
            {
                let k = keyword(&resp.lines[i]);
                caps.push(k);
                i = i + 1;
            }
        }
        let r = EhloData { domain, capabilities: caps };
        proof {
            assert(r@.caps =~~= ehlo_model_of(resp@).caps);
            assert(r@ =~~= ehlo_model_of(resp@));
        }
        r
    }

    /// Whether the ledger advertises the capability `cap`.
    pub fn has(&self, cap: &[u8]) -> (r: bool)
        ensures
            r == self@.caps.contains(cap@),
    {
        let mut i: usize = 0;
        while i < self.capabilities.len()
            invariant
                i <= self.capabilities.len(),
                forall|j: int| 0 <= j < i ==> self@.caps[j] != cap@,
            decreases self.capabilities.len() - i,
        {
            if bytes_eq(self.capabilities[i].as_slice(), cap) {
                proof {
                    assert(self@.caps[i as int] == cap@);
                }
                return true;
            }
            i = i + 1;
        }
        proof {
            assert(!self@.caps.contains(cap@)) by {
                if self@.caps.contains(cap@) {
                    let j = choose|j: int|
                        0 <= j < self@.caps.len() && self@.caps[j] == cap@;
                    assert(self@.caps[j] != cap@);
                }
            }
        }
        false
    }
}

} // verus!
