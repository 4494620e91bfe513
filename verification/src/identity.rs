//! Ledger identities and the deterministic derivation of custody
//! authorities.
//!
//! A custody authority is an address derived from a fixed seed tag and the
//! owning user's identity. The derivation also yields a bump seed chosen so
//! the derived address provably has no corresponding private key: the
//! authority can only "sign" by reproducing the same seeds.

use vstd::prelude::*;

verus! {

/// Number of bytes in a ledger identity.
pub const IDENTITY_LEN: usize = 32;

/// An identity on the host ledger: a public key or derived address.
pub struct Identity {
    pub bytes: Vec<u8>,
}

impl View for Identity {
    type V = Seq<u8>;

    open spec fn view(&self) -> Seq<u8> {
        self.bytes@
    }
}

impl Identity {
    /// Well-formed: exactly `IDENTITY_LEN` bytes.
    pub open spec fn wf(&self) -> bool {
        self@.len() == IDENTITY_LEN
    }

    /// Wraps `bytes` as an identity if they have the right length.
    pub fn new(bytes: Vec<u8>) -> (r: Option<Identity>)
        ensures
            match r {
                Some(id) => id.wf() && id@ == bytes@,
                None => bytes@.len() != IDENTITY_LEN,
            },
    {
        if bytes.len() == IDENTITY_LEN {
            Some(Identity { bytes })
        } else {
            None
        }
    }

    /// Returns a copy of this identity with the same bytes.
    pub fn duplicate(&self) -> (r: Identity)
        ensures
            r@ == self@,
    {
        let mut out: Vec<u8> = Vec::new();
        let mut i: usize = 0;
        while i < self.bytes.len()
            invariant
                i <= self.bytes@.len(),
                out@ == self.bytes@.take(i as int),
            decreases self.bytes@.len() - i,
        {
            out.push(self.bytes[i]);
            proof {
                assert(out@ =~= self.bytes@.take(i + 1));
            }
            i += 1;
        }
        proof {
            assert(out@ =~= self@);
        }
        Identity { bytes: out }
    }

    /// Byte-for-byte equality of two identities.
    pub fn same_as(&self, other: &Identity) -> (r: bool)
        ensures
            r == (self@ == other@),
    {
        if self.bytes.len() != other.bytes.len() {
            return false;
        }
        let mut i: usize = 0;
        while i < self.bytes.len()
            invariant
                i <= self.bytes@.len(),
                self.bytes@.len() == other.bytes@.len(),
                forall|j: int| 0 <= j < i ==> self.bytes@[j] == other.bytes@[j],
            decreases self.bytes@.len() - i,
        {
            if self.bytes[i] != other.bytes[i] {
                return false;
            }
            i += 1;
        }
        proof {
            assert(self@ =~= other@);
        }
        true
    }
}

/// Seed tag that scopes custody accounts to this protocol: the bytes of
/// `user_account`.
pub open spec fn spec_domain_tag() -> Seq<u8> {
    seq![117u8, 115u8, 101u8, 114u8, 95u8, 97u8, 99u8, 99u8, 111u8, 117u8, 110u8, 116u8]
}

/// The domain tag as a byte vector.
pub fn domain_tag_bytes() -> (r: Vec<u8>)
    ensures
        r@ == spec_domain_tag(),
{
    let mut v: Vec<u8> = Vec::new();
    v.push(117);
    v.push(115);
    v.push(101);
    v.push(114);
    v.push(95);
    v.push(97);
    v.push(99);
    v.push(99);
    v.push(111);
    v.push(117);
    v.push(110);
    v.push(116);
    proof {
        assert(v@ =~= spec_domain_tag());
    }
    v
}

/// What the ledger's program-address search returns for the seed list
/// `[tag, owner]` under `program`: the derived address and its bump seed,
/// or `None` when no bump seed yields an address without a private key.
pub uninterp spec fn custody_derivation(tag: Seq<u8>, owner: Seq<u8>, program: Seq<u8>) -> Option<(Seq<u8>, u8)>;

/// Relies on `Pubkey::try_find_program_address` (solana-pubkey, re-exported
/// by anchor_lang): the derived address and bump seed are a pure function of
/// the seed list and the program id, the returned address is 32 bytes, and
/// the call returns `None` only when no bump seed yields an off-curve
/// address. It never panics.
#[verifier::external_body]
fn try_find_custody_address(tag: &Vec<u8>, owner: &Vec<u8>, program: &Vec<u8>) -> (r: Option<(
    Vec<u8>,
    u8,
)>)
    requires
        program@.len() == IDENTITY_LEN,
    ensures
        match r {
            Some(p) => p.0@.len() == IDENTITY_LEN && custody_derivation(tag@, owner@, program@)
                == Some((p.0@, p.1)),
            None => custody_derivation(tag@, owner@, program@) is None,
        },
{
    let pid = anchor_lang::prelude::Pubkey::try_from(program.as_slice()).unwrap();
    let found = anchor_lang::prelude::Pubkey::try_find_program_address(
        &[tag.as_slice(), owner.as_slice()],
        &pid,
    );
    found.map(|(key, bump)| (key.to_bytes().to_vec(), bump))
}

/// Derives the custody authority for `owner` under `program`: the derived
/// identity together with the bump seed that reproduces it.
pub fn derive_custody_authority(owner: &Identity, program: &Identity) -> (r: Option<(Identity, u8)>)
    requires
        owner.wf(),
        program.wf(),
    ensures
        match r {
            Some(p) => p.0.wf() && custody_derivation(spec_domain_tag(), owner@, program@)
                == Some((p.0@, p.1)),
            None => custody_derivation(spec_domain_tag(), owner@, program@) is None,
        },
{
    let tag = domain_tag_bytes();
    match try_find_custody_address(&tag, &owner.bytes, &program.bytes) {
        Some(p) => Some((Identity { bytes: p.0 }, p.1)),
        None => None,
    }
}

/// Determinism of custody-authority derivation: two derivations from the
/// same tag, owner and program agree on both the derived identity and the
/// bump seed.
pub proof fn lemma_derivation_deterministic(
    tag: Seq<u8>,
    owner: Seq<u8>,
    program: Seq<u8>,
    r1: Option<(Seq<u8>, u8)>,
    r2: Option<(Seq<u8>, u8)>,
)
    requires
        r1 == custody_derivation(tag, owner, program),
        r2 == custody_derivation(tag, owner, program),
    ensures
        r1 == r2,
{
}

} // verus!
