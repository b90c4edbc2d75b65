use vstd::prelude::*;

verus! {

/// One second in nanoseconds.
pub const SECOND: u64 = 1_000_000_000;

/// One NEAR in yoctoNEAR.
pub const NEAR: u128 = 1_000_000_000_000_000_000_000_000;

/// One thousandth of a NEAR in yoctoNEAR.
pub const ONE_MILLI_NEAR: u128 = 1_000_000_000_000_000_000_000;

/// 100% expressed in basis points.
pub const BASIS_POINTS: u128 = 10_000;

/// Attached deposit of a call that carries no tokens.
pub const NO_DEPOSIT: u128 = 0;

/// One teragas.
pub const TGAS: u64 = 1_000_000_000_000;

pub const FIVE_TGAS: u64 = 5_000_000_000_000;

/// Gas for a fungible token transfer.
pub const GAS_FOR_FT_TRANSFER: u64 = 47_000_000_000_000;

/// Gas for the callback that settles a transfer.
pub const GAS_FOR_RESOLVE_TRANSFER: u64 = 11_000_000_000_000;

/// Gas for asking the staking pool for the stNEAR price.
pub const GAS_FOR_GET_STNEAR: u64 = 10_000_000_000_000;

pub const GAS_FOR_INTEREST_WITHDRAW: u64 = 200_000_000_000_000;

/// The namespaces of the contract's persistent collections.
pub enum Keys {
    KickstarterId,
    Supporters,
    Kickstarters,
    SupportedProjects,
    Active,
    Goals,
    Deposits,
    RewardWithdraws,
    StnearWithdraws,
}

impl Keys {
    /// The short tag of each namespace.
    pub open spec fn spec_tag(&self) -> Seq<char> {
        match self {
            Keys::KickstarterId => seq!['K', 'i', 'd'],
            Keys::Supporters => seq!['S'],
            Keys::Kickstarters => seq!['K'],
            Keys::SupportedProjects => seq!['S', 'p'],
            Keys::Active => seq!['A'],
            Keys::Goals => seq!['G'],
            Keys::Deposits => seq!['D'],
            Keys::RewardWithdraws => seq!['R', 'W'],
            Keys::StnearWithdraws => seq!['S', 'W'],
        }
    }

    /// The prefix of the collection of namespace `self` for `id`: the tag,
    /// a colon, and the id.
    pub open spec fn spec_prefix(&self, id: Seq<char>) -> Seq<char> {
        self.spec_tag() + seq![':'] + id
    }

    /// Creates a unique prefix for a collection from a string id: the
    /// namespace's tag, a colon, and the id.
    pub fn as_prefix(&self, id: &str) -> (r: String)
        ensures
            r@ == self.spec_prefix(id@),
    {
        let tag = match self {
            Keys::KickstarterId => "Kid:",
            Keys::Supporters => "S:",
            Keys::Kickstarters => "K:",
            Keys::SupportedProjects => "Sp:",
            Keys::Active => "A:",
            Keys::Goals => "G:",
            Keys::Deposits => "D:",
            Keys::RewardWithdraws => "RW:",
            Keys::StnearWithdraws => "SW:",
        };
        proof {
            reveal_strlit("Kid:");
            reveal_strlit("S:");
            reveal_strlit("K:");
            reveal_strlit("Sp:");
            reveal_strlit("A:");
            reveal_strlit("G:");
            reveal_strlit("D:");
            reveal_strlit("RW:");
            reveal_strlit("SW:");
            assert(tag@ =~= self.spec_tag() + seq![':']);
        }
        String::from_str(tag).concat(id)
    }
}

/// A tag is made of letters: it holds no colon.
proof fn lemma_tag_has_no_colon(k: Keys)
    ensures
        1 <= k.spec_tag().len() <= 3,
        forall|i: int| 0 <= i < k.spec_tag().len() ==> k.spec_tag()[i] != ':',
{
}

/// Distinct namespaces have distinct tags.
proof fn lemma_tag_injective(k1: Keys, k2: Keys)
    requires
        k1.spec_tag() == k2.spec_tag(),
    ensures
        k1 == k2,
{
    let t1 = k1.spec_tag();
    let t2 = k2.spec_tag();
    assert(t1.len() == t2.len());
    assert(t1[0] == t2[0]);
    assert(t1[t1.len() - 1] == t2[t2.len() - 1]);
}

/// Prefixes are unique: distinct (namespace, id) pairs give distinct prefixes.
pub proof fn lemma_prefix_unique(k1: Keys, id1: Seq<char>, k2: Keys, id2: Seq<char>)
    ensures
        k1.spec_prefix(id1) == k2.spec_prefix(id2) ==> k1 == k2 && id1 == id2,
{
    if k1.spec_prefix(id1) == k2.spec_prefix(id2) {
        let p = k1.spec_prefix(id1);
        let t1 = k1.spec_tag();
        let t2 = k2.spec_tag();
        lemma_tag_has_no_colon(k1);
        lemma_tag_has_no_colon(k2);
        assert(p[t1.len() as int] == ':');
        assert(k2.spec_prefix(id2)[t2.len() as int] == ':');
        if t1.len() < t2.len() {
            assert(k2.spec_prefix(id2)[t1.len() as int] == t2[t1.len() as int]);
        } else if t2.len() < t1.len() {
            assert(p[t2.len() as int] == t1[t2.len() as int]);
        }
        assert(t1.len() == t2.len());
        assert(t1 =~= p.subrange(0, t1.len() as int));
        assert(t2 =~= k2.spec_prefix(id2).subrange(0, t2.len() as int));
        lemma_tag_injective(k1, k2);
        assert(id1 =~= p.subrange(t1.len() as int + 1, p.len() as int));
        assert(id2 =~= k2.spec_prefix(id2).subrange(t2.len() as int + 1, p.len() as int));
    }
}

/// Who withdraws stNEAR from a kickstarter after its funds are unfrozen.
pub enum WithdrawEntity {
    Kickstarter,
    Supporter(String),
}

} // verus!
