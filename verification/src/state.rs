//! Scoring program state: the Mint record, its lifecycle states, and the
//! fixed-layout binary codec for the 194-byte account region.
//!
//! Layout of a packed record:
//! bytes 0..32 hold the score authority, byte 32 is the freeze-authority
//! presence flag, bytes 33..65 hold the freeze authority (all zero when the
//! flag is 0), byte 65 is the lifecycle tag, and bytes 66..194 hold the
//! metadata URI, padded with zero bytes up to its 128-byte capacity.

use vstd::prelude::*;

verus! {

/// A 32-byte identity (public-key equivalent) permitted to perform a
/// privileged transition.
#[derive(Clone, Copy, Debug)]
pub struct Identity {
    /// The raw identity bytes.
    pub bytes: [u8; 32],
}

impl View for Identity {
    type V = Seq<u8>;

    open spec fn view(&self) -> Seq<u8> {
        self.bytes@
    }
}

impl PartialEq for Identity {
    fn eq(&self, other: &Identity) -> (r: bool)
        ensures
            r == (self@ == other@),
    {
        let mut i: usize = 0;
        while i < 32
            invariant
                i <= 32,
                forall|k: int| 0 <= k < i ==> self.bytes@[k] == other.bytes@[k],
            decreases 32 - i,
        {
            if self.bytes[i] != other.bytes[i] {
                return false;
            }
            i += 1;
        }
        proof {
            assert(self.bytes@ =~= other.bytes@);
        }
        true
    }
}

impl vstd::std_specs::cmp::PartialEqSpecImpl for Identity {
    open spec fn obeys_eq_spec() -> bool {
        true
    }

    open spec fn eq_spec(&self, other: &Identity) -> bool {
        self@ == other@
    }
}

/// Mint lifecycle state.
#[derive(Clone, Copy, Debug, PartialEq, Eq, Structural)]
pub enum MintState {
    /// Mint is not yet initialized.
    Uninitialized,
    /// Mint is initialized and the score authority may issue points.
    Initialized,
    /// Mint has been frozen by the freeze authority; no further points may be
    /// issued. Terminal: no transition in this core reaches it.
    Frozen,
}

/// Scoring mint data, recording the authorities, lifecycle state and
/// metadata location of one score type.
#[derive(Clone, Debug)]
pub struct Mint {
    /// Authority used to issue or slash points; set once at mint creation.
    pub score_authority: Identity,
    /// Optional authority to freeze all scores globally; may not be modified
    /// after creating the mint.
    pub freeze_authority: Option<Identity>,
    /// Lifecycle state of the mint.
    pub state: MintState,
    /// UTF-8 bytes of the URI for JSON metadata describing this mint's
    /// points. Capacity is 128 bytes; the packed form pads with zero bytes,
    /// so the text itself may not contain a zero byte.
    pub metadata_uri: Vec<u8>,
}

/// The mathematical content of a Mint record.
#[verifier::ext_equal]
pub ghost struct MintView {
    /// The 32 score-authority bytes.
    pub score_authority: Seq<u8>,
    /// The freeze-authority bytes, when a freeze authority is present.
    pub freeze_authority: Option<Seq<u8>>,
    /// Lifecycle state.
    pub state: MintState,
    /// The metadata URI bytes, without padding.
    pub metadata_uri: Seq<u8>,
}

impl View for Mint {
    type V = MintView;

    open spec fn view(&self) -> MintView {
        MintView {
            score_authority: self.score_authority@,
            freeze_authority: match self.freeze_authority {
                Some(f) => Some(f@),
                None => None,
            },
            state: self.state,
            metadata_uri: self.metadata_uri@,
        }
    }
}

impl PartialEq for Mint {
    fn eq(&self, other: &Mint) -> (r: bool)
        ensures
            r == (self@ == other@),
    {
        let authorities_match = match (&self.freeze_authority, &other.freeze_authority) {
            (Some(a), Some(b)) => *a == *b,
            (None, None) => true,
            _ => false,
        };
        let r = self.score_authority == other.score_authority && authorities_match
            && self.state == other.state && vecs_eq(&self.metadata_uri, &other.metadata_uri);
        proof {
            if r {
                assert(self@ =~= other@);
            }
        }
        r
    }
}

impl vstd::std_specs::cmp::PartialEqSpecImpl for Mint {
    open spec fn obeys_eq_spec() -> bool {
        true
    }

    open spec fn eq_spec(&self, other: &Mint) -> bool {
        self@ == other@
    }
}

/// Compares two byte vectors element by element.
fn vecs_eq(a: &Vec<u8>, b: &Vec<u8>) -> (r: bool)
    ensures
        r == (a@ == b@),
{
    if a.len() != b.len() {
        return false;
    }
    let mut i: usize = 0;
    while i < a.len()
        invariant
            i <= a@.len(),
            a@.len() == b@.len(),
            forall|k: int| 0 <= k < i ==> a@[k] == b@[k],
        decreases a@.len() - i,
    {
        if a[i] != b[i] {
            return false;
        }
        i += 1;
    }
    proof {
        assert(a@ =~= b@);
    }
    true
}

impl Mint {
    /// Maximum size of the data in a scoring mint account.
    pub const SIZE: usize = 194;

    /// A Mint value the codec can represent: the URI fits the 128-byte
    /// capacity and contains no zero byte (zero is the padding byte).
    pub open spec fn wf(&self) -> bool {
        uri_encodable(self@.metadata_uri)
    }
}

/// Whether a URI can be stored in the fixed 128-byte region: it fits the
/// capacity and contains no zero byte, zero being the padding byte.
pub open spec fn uri_encodable(u: Seq<u8>) -> bool {
    &&& u.len() <= 128
    &&& forall|i: int| 0 <= i < u.len() ==> u[i] != 0
}

/// The view of an optional identity.
pub open spec fn identity_opt_view(o: Option<Identity>) -> Option<Seq<u8>> {
    match o {
        Some(f) => Some(f@),
        None => None,
    }
}

/// A sequence of `n` zero bytes.
pub open spec fn zero_bytes(n: nat) -> Seq<u8> {
    Seq::new(n, |i: int| 0u8)
}

/// The byte tag that a lifecycle state packs to.
pub open spec fn tag_of_state(s: MintState) -> u8 {
    match s {
        MintState::Uninitialized => 0u8,
        MintState::Initialized => 1u8,
        MintState::Frozen => 2u8,
    }
}

/// The lifecycle state a byte tag parses to; meaningful for tags 0 to 2.
pub open spec fn state_of_tag(t: u8) -> MintState {
    if t == 0 {
        MintState::Uninitialized
    } else if t == 1 {
        MintState::Initialized
    } else {
        MintState::Frozen
    }
}

/// The 33-byte freeze-authority region: a presence flag followed by the
/// authority bytes, or by 32 zero bytes when absent.
pub open spec fn freeze_bytes(f: Option<Seq<u8>>) -> Seq<u8> {
    match f {
        Some(s) => seq![1u8] + s,
        None => seq![0u8] + zero_bytes(32),
    }
}

/// The 128-byte URI region: the URI bytes, padded with zeros to capacity.
pub open spec fn uri_region_bytes(u: Seq<u8>) -> Seq<u8> {
    u + zero_bytes((128 - u.len()) as nat)
}

/// The packed 194-byte representation of a Mint record.
pub open spec fn mint_bytes(v: MintView) -> Seq<u8> {
    v.score_authority + freeze_bytes(v.freeze_authority) + seq![tag_of_state(v.state)]
        + uri_region_bytes(v.metadata_uri)
}

/// Length of the text stored in a zero-padded URI region: the bytes before
/// the first zero byte, or the whole region if no byte is zero.
pub open spec fn stored_uri_len(r: Seq<u8>) -> int
    decreases r.len(),
{
    if r.len() == 0 || r[0] == 0 {
        0
    } else {
        1 + stored_uri_len(r.subrange(1, r.len() as int))
    }
}

/// The text stored in a zero-padded URI region.
pub open spec fn stored_uri(r: Seq<u8>) -> Seq<u8> {
    r.subrange(0, stored_uri_len(r))
}

/// What a 194-byte buffer parses to: `None` when the freeze flag or the
/// lifecycle tag is out of range, or when the length is not 194.
pub open spec fn parse_mint(b: Seq<u8>) -> Option<MintView> {
    if b.len() != 194 {
        None
    } else if b[32] != 0 && b[32] != 1 {
        None
    } else if b[65] != 0 && b[65] != 1 && b[65] != 2 {
        None
    } else {
        Some(
            MintView {
                score_authority: b.subrange(0, 32),
                freeze_authority: if b[32] == 1 {
                    Some(b.subrange(33, 65))
                } else {
                    None
                },
                state: state_of_tag(b[65]),
                metadata_uri: stored_uri(b.subrange(66, 194)),
            },
        )
    }
}

/// A region whose first `k` bytes are nonzero and whose byte at `k` (if any)
/// is zero stores a text of length exactly `k`.
pub proof fn lemma_stored_uri_len_is(r: Seq<u8>, k: int)
    requires
        0 <= k <= r.len(),
        forall|i: int| 0 <= i < k ==> r[i] != 0,
        k == r.len() || r[k] == 0,
    ensures
        stored_uri_len(r) == k,
    decreases r.len(),
{
    if k == 0 {
    } else {
        let rest = r.subrange(1, r.len() as int);
        assert(forall|i: int| 0 <= i < k - 1 ==> rest[i] != 0);
        lemma_stored_uri_len_is(rest, k - 1);
    }
}

/// Round-trip law for the account codec: every well-formed Mint value parses
/// back from its packed representation unchanged.
pub proof fn lemma_mint_round_trip(v: MintView)
    requires
        v.score_authority.len() == 32,
        v.freeze_authority matches Some(f) ==> f.len() == 32,
        uri_encodable(v.metadata_uri),
    ensures
        parse_mint(mint_bytes(v)) == Some(v),
{
    let b = mint_bytes(v);
    let freeze = freeze_bytes(v.freeze_authority);
    let region = uri_region_bytes(v.metadata_uri);
    assert(freeze.len() == 33);
    assert(region.len() == 128);
    assert(b.len() == 194);
    assert(b[32] == freeze[0]);
    assert(b[65] == tag_of_state(v.state));
    assert(b.subrange(0, 32) =~= v.score_authority);
    assert(b.subrange(66, 194) =~= region);
    let n = v.metadata_uri.len() as int;
    lemma_stored_uri_len_is(region, n);
    assert(stored_uri(region) =~= v.metadata_uri);
    match v.freeze_authority {
        Some(f) => {
            assert(b[32] == 1);
            assert(b.subrange(33, 65) =~= f);
        },
        None => {
            assert(b[32] == 0);
        },
    }
    assert(state_of_tag(tag_of_state(v.state)) == v.state);
    assert(parse_mint(b) matches Some(p) && p =~= v);
}

impl Mint {
    /// Packs the record into its fixed 194-byte representation.
    pub fn pack(&self) -> (r: Vec<u8>)
        requires
            self.wf(),
        ensures
            r@ == mint_bytes(self@),
            r@.len() == 194,
    {
        let ghost target = mint_bytes(self@);
        let mut out: Vec<u8> = Vec::new();
        let mut i: usize = 0;
        while i < 32
            invariant
                i <= 32,
                out@ =~= self.score_authority@.subrange(0, i as int),
            decreases 32 - i,
        {
            out.push(self.score_authority.bytes[i]);
            i += 1;
        }
        assert(out@ =~= self@.score_authority);
        match &self.freeze_authority {
            Some(f) => {
                out.push(1);
                let mut j: usize = 0;
                while j < 32
                    invariant
                        j <= 32,
                        out@ =~= self@.score_authority + seq![1u8] + f@.subrange(0, j as int),
                    decreases 32 - j,
                {
                    out.push(f.bytes[j]);
                    j += 1;
                }
                assert(out@ =~= self@.score_authority + freeze_bytes(self@.freeze_authority));
            },
            None => {
                out.push(0);
                let mut j: usize = 0;
                while j < 32
                    invariant
                        j <= 32,
                        out@ =~= self@.score_authority + seq![0u8] + zero_bytes(j as nat),
                    decreases 32 - j,
                {
                    out.push(0);
                    j += 1;
                }
                assert(out@ =~= self@.score_authority + freeze_bytes(self@.freeze_authority));
            },
        }
        let ghost head = self@.score_authority + freeze_bytes(self@.freeze_authority);
        match self.state {
            MintState::Uninitialized => out.push(0),
            MintState::Initialized => out.push(1),
            MintState::Frozen => out.push(2),
        }
        assert(out@ =~= head + seq![tag_of_state(self@.state)]);
        let ghost head = head + seq![tag_of_state(self@.state)];
        let mut j: usize = 0;
        while j < self.metadata_uri.len()
            invariant
                j <= self.metadata_uri@.len(),
                out@ =~= head + self.metadata_uri@.subrange(0, j as int),
            decreases self.metadata_uri@.len() - j,
        {
            out.push(self.metadata_uri[j]);
            j += 1;
        }
        assert(out@ =~= head + self@.metadata_uri);
        let ghost pad_start = out@.len();
        while out.len() < 194
            invariant
                pad_start <= out@.len() <= 194,
                out@ =~= head + self@.metadata_uri + zero_bytes((out@.len() - pad_start) as nat),
            decreases 194 - out@.len(),
        {
            out.push(0);
        }
        proof {
            assert(out@.len() == 194);
            assert(out@ =~= target);
        }
        out
    }
}

} // verus!
