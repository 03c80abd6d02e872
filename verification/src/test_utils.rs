//! Small helpers for exercising the execution core: versions of the
//! contract language, well-known signer addresses, salt and address
//! helpers, and trivial call descriptors.
use vstd::prelude::*;
use vstd::string::StrSliceExecFns;
use vstd::string::StringExecFns;

use crate::call_info::{CallEntryPoint, EntryPointType, OrderedEvent};
use crate::felt::{ContractAddress, ContractAddressSalt, EntryPointSelector, FieldElement};

verus! {

/// The initial gas budget a trivial test call starts with.
pub const INITIAL_GAS_FOR_TESTING: u64 = 10000000000;

/// A version of the contract language an artifact was compiled from, or
/// the native form compiled ahead of time.
#[derive(Clone, Hash, PartialEq, Eq, Copy, Debug, Structural)]
pub enum CairoVersion {
    Cairo0,
    Cairo1,
    Native,
}

impl Default for CairoVersion {
    fn default() -> (r: Self)
        ensures
            r == CairoVersion::Cairo0,
    {
        CairoVersion::Cairo0
    }
}

/// The protocol version a declare transaction was submitted under.
#[derive(Clone, Copy, Debug, PartialEq, Eq, Hash, Structural)]
pub struct TransactionVersion(pub FieldElement);

impl CairoVersion {
    /// The contract-language version that a declare transaction of the
    /// given protocol version declares.
    pub fn from_declare_tx_version(tx_version: TransactionVersion) -> (r: Self)
        requires
            tx_version.0.wf(),
            tx_version.0.value() <= 3,
        ensures
            tx_version.0.value() <= 1 ==> r == CairoVersion::Cairo0,
            tx_version.0.value() > 1 ==> r == CairoVersion::Cairo1,
    {
        if tx_version.0.lo <= 1 && tx_version.0.hi == 0 {
            CairoVersion::Cairo0
        } else {
            CairoVersion::Cairo1
        }
    }

    /// A version other than this one.
    pub fn other(&self) -> (r: Self)
        ensures
            r == (match self {
                CairoVersion::Cairo0 => CairoVersion::Cairo1,
                CairoVersion::Cairo1 => CairoVersion::Cairo0,
                CairoVersion::Native => CairoVersion::Cairo1,
            }),
    {
        match self {
            Self::Cairo0 => Self::Cairo1,
            Self::Cairo1 => Self::Cairo0,
            Self::Native => Self::Cairo1,
        }
    }
}

/// Well-known signing parties with fixed addresses.
#[derive(Debug, Clone, Copy, PartialEq, Eq, Structural)]
pub enum Signers {
    Alice,
    Bob,
    Charlie,
}

impl Signers {
    /// The fixed contract address of this signer.
    pub fn get_address(&self) -> (r: ContractAddress)
        ensures
            r.0.wf(),
            r.0.value() == (match self {
                Signers::Alice => 1nat,
                Signers::Bob => 2nat,
                Signers::Charlie => 3nat,
            }),
    {
        match self {
            Signers::Alice => ContractAddress(FieldElement::from_u128(1)),
            Signers::Bob => ContractAddress(FieldElement::from_u128(2)),
            Signers::Charlie => ContractAddress(FieldElement::from_u128(3)),
        }
    }
}

/// Hands out contract-address salts in increasing order.
#[derive(Debug, PartialEq, Eq, Structural)]
pub struct SaltManager {
    pub next_salt: u8,
}

impl Default for SaltManager {
    fn default() -> (r: Self)
        ensures
            r.next_salt == 0,
    {
        SaltManager { next_salt: 0 }
    }
}

impl SaltManager {
    /// The next unused salt.
    pub fn next_salt(&mut self) -> (r: ContractAddressSalt)
        requires
            old(self).next_salt < u8::MAX,
        ensures
            r.0.wf(),
            r.0.value() == old(self).next_salt,
            final(self).next_salt == old(self).next_salt + 1,
    {
        let next_contract_address_salt = ContractAddressSalt(
            FieldElement::from_u128(self.next_salt as u128),
        );
        self.next_salt = self.next_salt + 1;
        next_contract_address_salt
    }
}

/// A transaction nonce.
#[derive(Clone, Copy, Debug, PartialEq, Eq, Hash, Structural)]
pub struct Nonce(pub FieldElement);

/// The nonce recorded for an account, zero where none is recorded yet.
pub open spec fn lookup_nonce(
    s: Seq<(ContractAddress, FieldElement)>,
    account: ContractAddress,
) -> FieldElement
    decreases s.len(),
{
    if s.len() == 0 {
        FieldElement { lo: 0, hi: 0 }
    } else if s.first().0 == account {
        s.first().1
    } else {
        lookup_nonce(s.drop_first(), account)
    }
}

/// Every recorded nonce is a canonical field element.
pub open spec fn nonces_wf(s: Seq<(ContractAddress, FieldElement)>) -> bool {
    forall|i: int| 0 <= i < s.len() ==> (#[trigger] s[i]).1.wf()
}

proof fn lemma_lookup_update(
    s: Seq<(ContractAddress, FieldElement)>,
    i: int,
    v: FieldElement,
    account: ContractAddress,
)
    requires
        0 <= i < s.len(),
        s[i].0 == account,
        forall|j: int| 0 <= j < i ==> s[j].0 != account,
    ensures
        lookup_nonce(s.update(i, (account, v)), account) == v,
        forall|b: ContractAddress|
            b != account ==> lookup_nonce(s.update(i, (account, v)), b) == lookup_nonce(s, b),
    decreases s.len(),
{
    let t = s.update(i, (account, v));
    if i == 0 {
        assert(t.first() == (account, v));
        assert(t.drop_first() =~= s.drop_first());
        assert forall|b: ContractAddress|
            b != account implies lookup_nonce(t, b) == lookup_nonce(s, b) by {
            assert(lookup_nonce(t, b) == lookup_nonce(t.drop_first(), b));
            assert(lookup_nonce(s, b) == if s.first().0 == b {
                s.first().1
            } else {
                lookup_nonce(s.drop_first(), b)
            });
        }
    } else {
        assert(t.first() == s.first());
        assert(t.drop_first() =~= s.drop_first().update(i - 1, (account, v)));
        lemma_lookup_update(s.drop_first(), i - 1, v, account);
        assert(lookup_nonce(t, account) == v);
        assert forall|b: ContractAddress|
            b != account implies lookup_nonce(t, b) == lookup_nonce(s, b) by {
            assert(lookup_nonce(t, b) == if t.first().0 == b {
                t.first().1
            } else {
                lookup_nonce(t.drop_first(), b)
            });
            assert(lookup_nonce(s, b) == if s.first().0 == b {
                s.first().1
            } else {
                lookup_nonce(s.drop_first(), b)
            });
        }
    }
}

proof fn lemma_lookup_push(
    s: Seq<(ContractAddress, FieldElement)>,
    v: FieldElement,
    account: ContractAddress,
)
    requires
        forall|j: int| 0 <= j < s.len() ==> (#[trigger] s[j]).0 != account,
    ensures
        lookup_nonce(s.push((account, v)), account) == v,
        forall|b: ContractAddress|
            b != account ==> lookup_nonce(s.push((account, v)), b) == lookup_nonce(s, b),
    decreases s.len(),
{
    let t = s.push((account, v));
    if s.len() == 0 {
        assert(t.first() == (account, v));
        assert(t.drop_first() =~= Seq::<(ContractAddress, FieldElement)>::empty());
        assert forall|b: ContractAddress|
            b != account implies lookup_nonce(t, b) == lookup_nonce(s, b) by {
            assert(lookup_nonce(t, b) == lookup_nonce(t.drop_first(), b));
        }
    } else {
        assert(t.first() == s.first());
        assert(t.drop_first() =~= s.drop_first().push((account, v)));
        assert forall|j: int| 0 <= j < s.drop_first().len() implies (#[trigger] s.drop_first()[j])
            == s[j + 1] by {}
        lemma_lookup_push(s.drop_first(), v, account);
        assert(s.first().0 != account);
        assert(lookup_nonce(t, account) == v);
        assert forall|b: ContractAddress|
            b != account implies lookup_nonce(t, b) == lookup_nonce(s, b) by {
            assert(lookup_nonce(t, b) == if t.first().0 == b {
                t.first().1
            } else {
                lookup_nonce(t.drop_first(), b)
            });
            assert(lookup_nonce(s, b) == if s.first().0 == b {
                s.first().1
            } else {
                lookup_nonce(s.drop_first(), b)
            });
        }
    }
}

/// Hands out consecutive nonces per account.
#[derive(Debug, PartialEq, Eq)]
pub struct NonceManager {
    pub next_nonce: Vec<(ContractAddress, FieldElement)>,
}

impl Default for NonceManager {
    fn default() -> (r: Self)
        ensures
            r.next_nonce@ == Seq::<(ContractAddress, FieldElement)>::empty(),
    {
        NonceManager { next_nonce: Vec::new() }
    }
}

impl NonceManager {
    /// The next unused nonce of the account, which is thereby consumed.
    pub fn next(&mut self, account_address: ContractAddress) -> (r: Nonce)
        requires
            nonces_wf(old(self).next_nonce@),
        ensures
            nonces_wf(final(self).next_nonce@),
            r.0 == lookup_nonce(old(self).next_nonce@, account_address),
            ({
                let stepped = lookup_nonce(final(self).next_nonce@, account_address);
                stepped.value() == if r.0.value() + 1 == crate::felt::field_prime() {
                    0
                } else {
                    r.0.value() + 1
                }
            }),
            forall|b: ContractAddress|
                b != account_address ==> lookup_nonce(final(self).next_nonce@, b) == lookup_nonce(
                    old(self).next_nonce@,
                    b,
                ),
    {
        let ghost s0 = self.next_nonce@;
        let mut k: usize = 0;
        proof {
            assert(s0.skip(0) =~= s0);
        }
        while k < self.next_nonce.len()
            invariant
                k <= self.next_nonce@.len(),
                self.next_nonce@ == s0,
                s0 == old(self).next_nonce@,
                nonces_wf(s0),
                lookup_nonce(s0, account_address) == lookup_nonce(
                    s0.skip(k as int),
                    account_address,
                ),
                forall|j: int| 0 <= j < k ==> (#[trigger] s0[j]).0 != account_address,
            decreases self.next_nonce@.len() - k,
        {
            proof {
                assert(s0.skip(k as int).first() == s0[k as int]);
                assert(s0.skip(k as int).drop_first() =~= s0.skip(k as int + 1));
            }
            if self.next_nonce[k].0 == account_address {
                let current = self.next_nonce[k].1;
                let stepped = current.increment();
                self.next_nonce.set(k, (account_address, stepped));
                proof {
                    lemma_lookup_update(s0, k as int, stepped, account_address);
                }
                return Nonce(current);
            }
            k += 1;
        }
        proof {
            assert(s0.skip(s0.len() as int) =~= Seq::<(ContractAddress, FieldElement)>::empty());
        }
        let zero = FieldElement::zero();
        let one = zero.increment();
        self.next_nonce.push((account_address, one));
        proof {
            lemma_lookup_push(s0, one, account_address);
        }
        Nonce(zero)
    }

    /// Steps the account's recorded nonce back by one, unless it is zero.
    pub fn rollback(&mut self, account_address: ContractAddress)
        requires
            nonces_wf(old(self).next_nonce@),
        ensures
            nonces_wf(final(self).next_nonce@),
            ({
                let current = lookup_nonce(old(self).next_nonce@, account_address);
                let after = lookup_nonce(final(self).next_nonce@, account_address);
                after.value() == if current.value() == 0 {
                    0
                } else {
                    (current.value() - 1) as nat
                }
            }),
            forall|b: ContractAddress|
                b != account_address ==> lookup_nonce(final(self).next_nonce@, b) == lookup_nonce(
                    old(self).next_nonce@,
                    b,
                ),
    {
        let ghost s0 = self.next_nonce@;
        let mut k: usize = 0;
        proof {
            assert(s0.skip(0) =~= s0);
        }
        while k < self.next_nonce.len()
            invariant
                k <= self.next_nonce@.len(),
                self.next_nonce@ == s0,
                s0 == old(self).next_nonce@,
                nonces_wf(s0),
                lookup_nonce(s0, account_address) == lookup_nonce(
                    s0.skip(k as int),
                    account_address,
                ),
                forall|j: int| 0 <= j < k ==> (#[trigger] s0[j]).0 != account_address,
            decreases self.next_nonce@.len() - k,
        {
            proof {
                assert(s0.skip(k as int).first() == s0[k as int]);
                assert(s0.skip(k as int).drop_first() =~= s0.skip(k as int + 1));
            }
            if self.next_nonce[k].0 == account_address {
                let current = self.next_nonce[k].1;
                if current.lo != 0 || current.hi != 0 {
                    let stepped = current.decrement();
                    self.next_nonce.set(k, (account_address, stepped));
                    proof {
                        lemma_lookup_update(s0, k as int, stepped, account_address);
                    }
                }
                return ;
            }
            k += 1;
        }
        proof {
            assert(s0.skip(s0.len() as int) =~= Seq::<(ContractAddress, FieldElement)>::empty());
        }
    }
}

/// Converts a machine-word count to a `u64`.
pub fn u64_from_usize(val: usize) -> (r: u64)
    requires
        val <= u64::MAX,
    ensures
        r == val,
{
    val as u64
}

/// The hex digits of an address without its `0x` prefix, or the whole
/// string where the prefix is absent.
pub open spec fn trimmed_address(s: Seq<char>) -> Seq<char> {
    if s.len() >= 2 && s[0] == '0' && s[1] == 'x' {
        s.skip(2)
    } else {
        s
    }
}

/// A run of `n` zero digits.
pub open spec fn zero_digits(n: nat) -> Seq<char> {
    Seq::new(n, |i: int| '0')
}

/// Left-pads an address string with zero digits to 64 hex digits behind a
/// `0x` prefix; an address already 64 digits or longer is only re-prefixed.
pub fn pad_address_to_64(address: &str) -> (r: String)
    ensures
        r@ == seq!['0', 'x'] + zero_digits(
            if trimmed_address(address@).len() >= 64 {
                0
            } else {
                (64 - trimmed_address(address@).len()) as nat
            },
        ) + trimmed_address(address@),
{
    proof {
        reveal_strlit("0x");
        reveal_strlit("0");
    }
    let len = address.unicode_len();
    let has_prefix = len >= 2 && address.get_char(0) == '0' && address.get_char(1) == 'x';
    let trimmed: &str = if has_prefix {
        address.substring_char(2, len)
    } else {
        address
    };
    let tlen = if has_prefix {
        len - 2
    } else {
        len
    };
    assert(trimmed@ == trimmed_address(address@));
    let pad: usize = if tlen >= 64 {
        0
    } else {
        64 - tlen
    };
    let mut out: String = String::from_str("0x");
    assert(out@ =~= seq!['0', 'x'] + zero_digits(0));
    let mut d: usize = 0;
    while d < pad
        invariant
            d <= pad,
            out@ == seq!['0', 'x'] + zero_digits(d as nat),
            "0"@ == seq!['0'],
        decreases pad - d,
    {
        out.append("0");
        proof {
            assert(out@ =~= seq!['0', 'x'] + zero_digits(d as nat + 1));
        }
        d += 1;
    }
    out.append(trimmed);
    out
}

/// Calldata for a deployment exercised through a contract's own deploy
/// entry point: the class hash, a default salt, the constructor calldata
/// behind its length, and the deploy-from-zero flag, with a deliberately
/// invalid flag value when an invalid deployment is wanted.
pub fn calldata_for_deploy_test(
    class_hash: crate::felt::ClassHash,
    constructor_calldata: &Vec<FieldElement>,
    valid_deploy_from_zero: bool,
) -> (r: Vec<FieldElement>)
    requires
        constructor_calldata@.len() <= u64::MAX,
    ensures
        r@ == seq![
            class_hash.0,
            FieldElement { lo: 0, hi: 0 },
            FieldElement { lo: constructor_calldata@.len() as u128, hi: 0 },
        ] + constructor_calldata@ + seq![
            FieldElement { lo: if valid_deploy_from_zero { 0 } else { 2 }, hi: 0 },
        ],
{
    let mut out: Vec<FieldElement> = Vec::new();
    out.push(class_hash.0);
    out.push(FieldElement::zero());
    out.push(FieldElement::from_u128(constructor_calldata.len() as u128));
    let mut k: usize = 0;
    while k < constructor_calldata.len()
        invariant
            k <= constructor_calldata@.len(),
            out@ == seq![
                class_hash.0,
                FieldElement { lo: 0, hi: 0 },
                FieldElement { lo: constructor_calldata@.len() as u128, hi: 0 },
            ] + constructor_calldata@.take(k as int),
        decreases constructor_calldata@.len() - k,
    {
        out.push(constructor_calldata[k]);
        proof {
            assert(out@ =~= seq![
                class_hash.0,
                FieldElement { lo: 0, hi: 0 },
                FieldElement { lo: constructor_calldata@.len() as u128, hi: 0 },
            ] + constructor_calldata@.take(k as int + 1));
        }
        k += 1;
    }
    proof {
        assert(constructor_calldata@.take(constructor_calldata@.len() as int)
            =~= constructor_calldata@);
    }
    out.push(
        if valid_deploy_from_zero {
            FieldElement::from_u128(0)
        } else {
            FieldElement::from_u128(2)
        },
    );
    proof {
        assert(out@ =~= seq![
            class_hash.0,
            FieldElement { lo: 0, hi: 0 },
            FieldElement { lo: constructor_calldata@.len() as u128, hi: 0 },
        ] + constructor_calldata@ + seq![
            FieldElement { lo: if valid_deploy_from_zero { 0u128 } else { 2u128 }, hi: 0 },
        ]);
    }
    out
}

/// Calldata for an account's execute entry point: the called contract, the
/// selector of the called entry point, and its arguments behind their
/// length.  The caller supplies the selector; deriving it from an entry
/// point's name is the hashing collaborator's part.
pub fn create_calldata(
    contract_address: ContractAddress,
    entry_point_selector: EntryPointSelector,
    entry_point_args: &Vec<FieldElement>,
) -> (r: Vec<FieldElement>)
    requires
        entry_point_args@.len() <= u64::MAX,
    ensures
        r@ == seq![
            contract_address.0,
            entry_point_selector.0,
            FieldElement { lo: entry_point_args@.len() as u128, hi: 0 },
        ] + entry_point_args@,
{
    let mut out: Vec<FieldElement> = Vec::new();
    out.push(contract_address.0);
    out.push(entry_point_selector.0);
    out.push(FieldElement::from_u128(entry_point_args.len() as u128));
    let mut k: usize = 0;
    while k < entry_point_args.len()
        invariant
            k <= entry_point_args@.len(),
            out@ == seq![
                contract_address.0,
                entry_point_selector.0,
                FieldElement { lo: entry_point_args@.len() as u128, hi: 0 },
            ] + entry_point_args@.take(k as int),
        decreases entry_point_args@.len() - k,
    {
        out.push(entry_point_args[k]);
        proof {
            assert(out@ =~= seq![
                contract_address.0,
                entry_point_selector.0,
                FieldElement { lo: entry_point_args@.len() as u128, hi: 0 },
            ] + entry_point_args@.take(k as int + 1));
        }
        k += 1;
    }
    proof {
        assert(entry_point_args@.take(entry_point_args@.len() as int) =~= entry_point_args@);
    }
    out
}

/// An event as a test observes it: data and keys, stripped of ordering.
#[derive(Debug, Clone, PartialEq, Eq)]
pub struct TestEvent {
    pub data: Vec<FieldElement>,
    pub keys: Vec<FieldElement>,
}

impl TestEvent {
    /// The test view of an emitted event.
    pub fn from_ordered_event(value: OrderedEvent) -> (r: TestEvent)
        ensures
            r.data@ == value.data@,
            r.keys@ == value.keys@,
    {
        TestEvent { data: value.data, keys: value.keys }
    }
}

/// A trivial external call descriptor against the given contract address:
/// zero selector, empty calldata, and the fixed testing gas budget.
pub fn trivial_external_entry_point_with_address(contract_address: ContractAddress) -> (r:
    CallEntryPoint)
    ensures
        r.class_hash is None,
        r.code_address == Some(contract_address),
        r.entry_point_type == EntryPointType::External,
        r.entry_point_selector.0.value() == 0,
        r.calldata@ == Seq::<FieldElement>::empty(),
        r.storage_address == contract_address,
        r.caller_address.0.value() == 0,
        r.initial_gas == INITIAL_GAS_FOR_TESTING,
{
    CallEntryPoint {
        class_hash: None,
        code_address: Some(contract_address),
        entry_point_type: EntryPointType::External,
        entry_point_selector: EntryPointSelector(FieldElement::zero()),
        calldata: Vec::new(),
        storage_address: contract_address,
        caller_address: ContractAddress(FieldElement::zero()),
        initial_gas: INITIAL_GAS_FOR_TESTING,
    }
}

} // verus!
