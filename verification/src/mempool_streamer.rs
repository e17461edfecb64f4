//! Events of the lending protocol and their classification by call selector.

use crate::address::address_of;
use crate::address::lemma_address_by_bytes;
use crate::address::Address;
use crate::amount::big_endian_value;
use crate::amount::word_to_big_endian;
use crate::amount::Amount;
use vstd::prelude::*;

verus! {

/// What the pipeline reads of a transaction: its sender, its recipient and its
/// call data.
#[derive(Clone, Debug, PartialEq, Eq)]
pub struct Transaction {
    pub from: Address,
    pub to: Option<Address>,
    pub input: Vec<u8>,
}

impl Default for Transaction {
    fn default() -> (r: Transaction)
        ensures
            r.from@ == Seq::new(20, |i: int| 0u8),
            r.to is None,
            r.input@.len() == 0,
    {
        Transaction { from: Address::zero(), to: None, input: Vec::new() }
    }
}

/// The actions of the lending protocol that the pipeline tells apart.
#[derive(Clone, Copy, Debug, PartialEq, Eq, Structural)]
pub enum TransactionType {
    Deposit,
    Withdraw,
    Borrow,
    Repay,
    Liquidate,
}

/// The four-byte selector that opens the call data of each action.
pub open spec fn selector_of(kind: TransactionType) -> Seq<u8> {
    match kind {
        TransactionType::Deposit => seq![0xd0u8, 0xe3u8, 0x0du8, 0xb0u8],
        TransactionType::Withdraw => seq![0x2eu8, 0x1au8, 0x7du8, 0x4du8],
        TransactionType::Borrow => seq![0xc5u8, 0xebu8, 0xeau8, 0xecu8],
        TransactionType::Repay => seq![0x37u8, 0x1fu8, 0xd8u8, 0xe6u8],
        TransactionType::Liquidate => seq![0x26u8, 0xcdu8, 0xbeu8, 0x1au8],
    }
}

/// The call data is at least four bytes long and opens with the selector of
/// `kind`.
pub open spec fn has_selector(input: Seq<u8>, kind: TransactionType) -> bool {
    input.len() >= 4 && input.subrange(0, 4) == selector_of(kind)
}

/// The action whose selector opens the call data, if there is one.
pub open spec fn classify(input: Seq<u8>) -> Option<TransactionType> {
    if has_selector(input, TransactionType::Deposit) {
        Some(TransactionType::Deposit)
    } else if has_selector(input, TransactionType::Borrow) {
        Some(TransactionType::Borrow)
    } else if has_selector(input, TransactionType::Withdraw) {
        Some(TransactionType::Withdraw)
    } else if has_selector(input, TransactionType::Repay) {
        Some(TransactionType::Repay)
    } else if has_selector(input, TransactionType::Liquidate) {
        Some(TransactionType::Liquidate)
    } else {
        None
    }
}

/// The account whose state an event asks to be read. For a liquidation it is
/// the account that is liquidated, which the call data names in its bytes 16
/// to 35; for every other action, and for a liquidation whose call data is too
/// short to name an account, it is the sender.
pub open spec fn account_to_read(tx: Transaction, kind: TransactionType) -> Seq<u8> {
    if kind == TransactionType::Liquidate && tx.input@.len() >= 36 {
        tx.input@.subrange(16, 36)
    } else {
        tx.from@
    }
}

/// No two actions share a selector.
pub proof fn lemma_selectors_distinct(a: TransactionType, b: TransactionType)
    ensures
        selector_of(a).len() == 4,
        selector_of(a) == selector_of(b) ==> a == b,
{
    if selector_of(a) == selector_of(b) {
        assert(selector_of(a)[0] == selector_of(b)[0]);
    }
}

/// Call data is classified as an action exactly when it opens with that
/// action's selector; call data shorter than four bytes is classified as none.
pub proof fn lemma_classify_by_selector(input: Seq<u8>, kind: TransactionType)
    ensures
        classify(input) == Some(kind) <==> has_selector(input, kind),
        input.len() < 4 ==> classify(input) is None,
{
    if has_selector(input, kind) {
        lemma_selectors_distinct(kind, TransactionType::Deposit);
        lemma_selectors_distinct(kind, TransactionType::Borrow);
        lemma_selectors_distinct(kind, TransactionType::Withdraw);
        lemma_selectors_distinct(kind, TransactionType::Repay);
        lemma_selectors_distinct(kind, TransactionType::Liquidate);
    }
}

/// Call data made of an action's selector and any arguments after it is
/// classified as that action.
pub proof fn lemma_classify_round_trip(kind: TransactionType, arguments: Seq<u8>)
    ensures
        classify(selector_of(kind) + arguments) == Some(kind),
{
    lemma_selectors_distinct(kind, kind);
    assert((selector_of(kind) + arguments).subrange(0, 4) =~= selector_of(kind));
    lemma_classify_by_selector(selector_of(kind) + arguments, kind);
}

impl TransactionType {
    /// The selector of the action.
    pub fn selector(self) -> (r: [u8; 4])
        ensures
            r@ == selector_of(self),
    {
        let r: [u8; 4] = match self {
            TransactionType::Deposit => [0xd0, 0xe3, 0x0d, 0xb0],
            TransactionType::Withdraw => [0x2e, 0x1a, 0x7d, 0x4d],
            TransactionType::Borrow => [0xc5, 0xeb, 0xea, 0xec],
            TransactionType::Repay => [0x37, 0x1f, 0xd8, 0xe6],
            TransactionType::Liquidate => [0x26, 0xcd, 0xbe, 0x1a],
        };
        assert(r@ =~= selector_of(self));
        r
    }
}

/// Tells the transactions of the lending protocol apart.
pub struct TransactionClassifier;

impl TransactionClassifier {
    /// Whether the transaction is sent to the protocol.
    pub fn is_protocol_transaction(tx: &Transaction, protocol_address: Address) -> (r: bool)
        ensures
            r == (tx.to is Some && tx.to->0@ == protocol_address@),
    {
        match &tx.to {
            Some(addr) => addr.same(&protocol_address),
            None => false,
        }
    }

    /// Whether the call data opens with the selector of `kind`.
    pub fn opens_with(input: &Vec<u8>, kind: TransactionType) -> (r: bool)
        ensures
            r == has_selector(input@, kind),
    {
        if input.len() < 4 {
            return false;
        }
        let sel = kind.selector();
        let r = input[0] == sel[0] && input[1] == sel[1] && input[2] == sel[2] && input[3]
            == sel[3];
        proof {
            if r {
                assert(input@.subrange(0, 4) =~= selector_of(kind));
            } else {
                assert(input@.subrange(0, 4)[0] == input@[0]);
                assert(input@.subrange(0, 4)[1] == input@[1]);
                assert(input@.subrange(0, 4)[2] == input@[2]);
                assert(input@.subrange(0, 4)[3] == input@[3]);
            }
        }
        r
    }

    /// The action that the transaction's call data asks for: the one whose
    /// selector its first four bytes are, if there is one.
    pub fn classify_transaction(tx: &Transaction) -> (r: Option<TransactionType>)
        ensures
            r == classify(tx.input@),
    {
        let table: [TransactionType; 5] = [
            TransactionType::Deposit,
            TransactionType::Borrow,
            TransactionType::Withdraw,
            TransactionType::Repay,
            TransactionType::Liquidate,
        ];
        let mut i: usize = 0;
        while i < 5
            invariant
                i <= 5,
                table@ =~= seq![
                    TransactionType::Deposit,
                    TransactionType::Borrow,
                    TransactionType::Withdraw,
                    TransactionType::Repay,
                    TransactionType::Liquidate,
                ],
                forall|j: int| 0 <= j < i ==> !has_selector(tx.input@, #[trigger] table@[j]),
            decreases 5 - i,
        {
            if Self::opens_with(&tx.input, table[i]) {
                return Some(table[i]);
            }
            i += 1;
        }
        proof {
            assert(!has_selector(tx.input@, table@[0]));
            assert(!has_selector(tx.input@, table@[1]));
            assert(!has_selector(tx.input@, table@[2]));
            assert(!has_selector(tx.input@, table@[3]));
            assert(!has_selector(tx.input@, table@[4]));
        }
        None
    }

    /// The account whose state is to be read for a transaction of the given
    /// action: the liquidated account of a liquidation, else the sender.
    pub fn extract_tracked_address(tx: &Transaction, kind: TransactionType) -> (r: Address)
        ensures
            r@ == account_to_read(*tx, kind),
            r == address_of(account_to_read(*tx, kind)),
            kind != TransactionType::Liquidate || tx.input@.len() < 36 ==> r == tx.from,
    {
        let r = match kind {
            TransactionType::Liquidate => match Address::from_slice(&tx.input, 16) {
                Some(liquidated) => liquidated,
                None => tx.from,
            },
            _ => tx.from,
        };
        proof {
            lemma_address_by_bytes(r, r);
        }
        r
    }

    /// The account that the transaction acts for: its sender.
    pub fn extract_user_address(tx: &Transaction) -> (r: Address)
        ensures
            r == tx.from,
    {
        tx.from
    }
}

/// Whether the bytes are the call data of an action with one amount as its
/// argument: the action's selector, then the amount as 32 bytes, most
/// significant byte first.
pub open spec fn is_amount_call(data: Seq<u8>, kind: TransactionType, amount: nat) -> bool {
    &&& data.len() == 36
    &&& data.subrange(0, 4) == selector_of(kind)
    &&& big_endian_value(data.subrange(4, 36)) == amount
}

/// Appends the bytes to the call data.
pub fn append_bytes(data: &mut Vec<u8>, bytes: &[u8])
    ensures
        final(data)@ == old(data)@ + bytes@,
{
    let mut i: usize = 0;
    while i < bytes.len()
        invariant
            i <= bytes.len(),
            data@ == old(data)@ + bytes@.take(i as int),
        decreases bytes.len() - i,
    {
        data.push(bytes[i]);
        assert(bytes@.take(i as int + 1) =~= bytes@.take(i as int).push(bytes@[i as int]));
        i += 1;
    }
    assert(bytes@.take(i as int) =~= bytes@);
}

/// The call data of an action without arguments: its selector.
pub fn encode_call(kind: TransactionType) -> (r: Vec<u8>)
    ensures
        r@ == selector_of(kind),
        classify(r@) == Some(kind),
{
    let mut data: Vec<u8> = Vec::new();
    let sel = kind.selector();
    append_bytes(&mut data, sel.as_slice());
    proof {
        assert(data@ =~= selector_of(kind));
        lemma_classify_round_trip(kind, Seq::<u8>::empty());
        assert(selector_of(kind) + Seq::<u8>::empty() =~= selector_of(kind));
    }
    data
}

/// The call data of an action with one amount as its argument.
pub fn encode_amount_call(kind: TransactionType, amount: Amount) -> (r: Vec<u8>)
    ensures
        is_amount_call(r@, kind, amount@),
        classify(r@) == Some(kind),
{
    let mut data = encode_call(kind);
    let word = word_to_big_endian(amount);
    append_bytes(&mut data, word.as_slice());
    proof {
        lemma_selectors_distinct(kind, kind);
        assert(data@.subrange(0, 4) =~= selector_of(kind));
        assert(data@.subrange(4, 36) =~= word@);
        lemma_classify_round_trip(kind, word@);
    }
    data
}

/// The call data of a deposit.
pub fn encode_deposit_call() -> (r: Vec<u8>)
    ensures
        r@ == selector_of(TransactionType::Deposit),
{
    encode_call(TransactionType::Deposit)
}

/// The call data of borrowing an amount.
pub fn encode_borrow_call(amount: Amount) -> (r: Vec<u8>)
    ensures
        is_amount_call(r@, TransactionType::Borrow, amount@),
{
    encode_amount_call(TransactionType::Borrow, amount)
}

/// The call data of withdrawing an amount.
pub fn encode_withdraw_call(amount: Amount) -> (r: Vec<u8>)
    ensures
        is_amount_call(r@, TransactionType::Withdraw, amount@),
{
    encode_amount_call(TransactionType::Withdraw, amount)
}

/// The call data of repaying an amount.
pub fn encode_repay_call(amount: Amount) -> (r: Vec<u8>)
    ensures
        is_amount_call(r@, TransactionType::Repay, amount@),
{
    encode_amount_call(TransactionType::Repay, amount)
}

/// The action of the made-up transaction with the given number: of every ten
/// in a row, four deposit, three borrow, two withdraw and one repays.
pub open spec fn synthetic_action(nonce: nat) -> TransactionType {
    if nonce % 10 <= 3 {
        TransactionType::Deposit
    } else if nonce % 10 <= 6 {
        TransactionType::Borrow
    } else if nonce % 10 <= 8 {
        TransactionType::Withdraw
    } else {
        TransactionType::Repay
    }
}

/// The amount that the made-up transaction of an action asks for, where the
/// action takes one: 1000 dollars borrowed, half a unit withdrawn, 500 dollars
/// repaid.
pub open spec fn synthetic_amount(kind: TransactionType) -> nat {
    match kind {
        TransactionType::Borrow => 1_000_000_000_000_000_000_000,
        TransactionType::Withdraw => 500_000_000_000_000_000,
        TransactionType::Repay => 500_000_000_000_000_000_000,
        _ => 0,
    }
}

/// A made-up transaction to the protocol for testing, the `nonce`-th of a
/// stream, sent by `from`.
pub fn generate_synthetic_transaction(protocol_address: Address, nonce: usize, from: Address) -> (r:
    Transaction)
    ensures
        r.from == from,
        r.to == Some(protocol_address),
        classify(r.input@) == Some(synthetic_action(nonce as nat)),
        synthetic_action(nonce as nat) == TransactionType::Deposit ==> r.input@ == selector_of(
            TransactionType::Deposit,
        ),
        synthetic_action(nonce as nat) != TransactionType::Deposit ==> is_amount_call(
            r.input@,
            synthetic_action(nonce as nat),
            synthetic_amount(synthetic_action(nonce as nat)),
        ),
{
    let slot: usize = nonce % 10;
    let input: Vec<u8> = if slot <= 3 {
        encode_call(TransactionType::Deposit)
    } else if slot <= 6 {
        encode_amount_call(
            TransactionType::Borrow,
            Amount::from_u128(1_000_000_000_000_000_000_000),
        )
    } else if slot <= 8 {
        encode_amount_call(TransactionType::Withdraw, Amount::from_u64(500_000_000_000_000_000))
    } else {
        encode_amount_call(TransactionType::Repay, Amount::from_u128(500_000_000_000_000_000_000))
    };
    Transaction { from, to: Some(protocol_address), input }
}

} // verus!
