//! The ledger's own types that the library carries, and the calls into the
//! ledger SDK that the submission makes: reading the payer's key material,
//! building the envelope, signing it, and reading its signature.
use solana_sdk::hash;
use solana_sdk::instruction::{AccountMeta, CompiledInstruction, Instruction, InstructionError};
use solana_sdk::message::{Message, MessageHeader};
use solana_sdk::pubkey::Pubkey;
use solana_sdk::signature::{Keypair, Signature};
use solana_sdk::signer::{Signer, SignerError};
use solana_sdk::transaction::{Transaction, TransactionError};
use vstd::prelude::*;

verus! {

#[verifier::external_type_specification]
#[verifier::external_body]
pub struct ExPubkey(Pubkey);

#[verifier::external_type_specification]
#[verifier::external_body]
pub struct ExHash(hash::Hash);

#[verifier::external_type_specification]
#[verifier::external_body]
pub struct ExSignature(Signature);

/// Verus reads the signature type's conversion from a byte slice, whose error
/// type this is; nothing here uses it otherwise.
#[verifier::external_type_specification]
#[verifier::external_body]
pub struct ExTryFromSliceError(core::array::TryFromSliceError);

#[verifier::external_type_specification]
#[verifier::external_body]
pub struct ExKeypair(Keypair);

#[verifier::external_type_specification]
pub struct ExTransaction(Transaction);

#[verifier::external_type_specification]
pub struct ExMessage(Message);

#[verifier::external_type_specification]
pub struct ExMessageHeader(MessageHeader);

#[verifier::external_type_specification]
pub struct ExCompiledInstruction(CompiledInstruction);

#[verifier::external_type_specification]
pub struct ExTransactionError(TransactionError);

#[verifier::external_type_specification]
#[verifier::external_body]
pub struct ExInstructionError(InstructionError);

#[verifier::external_type_specification]
#[verifier::external_body]
pub struct ExSignerError(SignerError);

#[verifier::external_type_specification]
pub struct ExAccountMeta(AccountMeta);

#[verifier::external_type_specification]
pub struct ExInstruction(Instruction);

/// The keys that one instruction names, its program id first.
pub open spec fn instruction_keys(ix: Instruction) -> Seq<Pubkey> {
    seq![ix.program_id] + ix.accounts@.map_values(|m: AccountMeta| m.pubkey)
}

/// Every key that the instructions name, in order, repeats included.
pub open spec fn named_keys(ins: Seq<Instruction>) -> Seq<Pubkey>
    decreases ins.len(),
{
    if ins.len() == 0 {
        Seq::empty()
    } else {
        named_keys(ins.drop_last()) + instruction_keys(ins.last())
    }
}

/// The most distinct keys that the instructions may name: together with the
/// payer they must fit the message's one-byte key count.
pub const MAX_NAMED_KEYS: usize = 254;

/// The longest list that the message's compact length prefix can encode.
pub const MAX_SHORT_VEC: usize = 65535;

/// The instructions fit in one message together with a payer: few enough
/// distinct keys, and every list short enough for its length prefix.
pub open spec fn fits(ins: Seq<Instruction>) -> bool {
    &&& named_keys(ins).to_set().len() <= MAX_NAMED_KEYS
    &&& ins.len() <= MAX_SHORT_VEC
    &&& forall|i: int|
        0 <= i < ins.len() ==> (#[trigger] ins[i]).accounts@.len() <= MAX_SHORT_VEC
            && ins[i].data@.len() <= MAX_SHORT_VEC
}

/// Relies on the derived equality of public keys, which compares their bytes.
pub assume_specification[ <Pubkey as core::cmp::PartialEq>::eq ](a: &Pubkey, b: &Pubkey) -> (r:
    bool)
    ensures
        r == (*a == *b),
;

/// Every key that the instructions name, in order.
fn collect_keys(instructions: &[Instruction]) -> (r: Vec<Pubkey>)
    ensures
        r@ == named_keys(instructions@),
{
    let mut keys: Vec<Pubkey> = Vec::new();
    let mut i: usize = 0;
    while i < instructions.len()
        invariant
            i <= instructions@.len(),
            keys@ == named_keys(instructions@.take(i as int)),
        decreases instructions@.len() - i,
    {
        let ix = &instructions[i];
        let ghost before = keys@;
        keys.push(ix.program_id);
        let mut j: usize = 0;
        while j < ix.accounts.len()
            invariant
                j <= ix.accounts@.len(),
                *ix == instructions@[i as int],
                keys@ == before + instruction_keys(*ix).take(j + 1),
            decreases ix.accounts@.len() - j,
        {
            keys.push(ix.accounts[j].pubkey);
            assert(instruction_keys(*ix).take(j + 2) == instruction_keys(*ix).take(j + 1).push(
                ix.accounts@[j as int].pubkey,
            ));
            j = j + 1;
        }
        assert(instruction_keys(*ix).take(j + 1) == instruction_keys(*ix));
        assert(instructions@.take(i + 1).drop_last() == instructions@.take(i as int));
        i = i + 1;
    }
    assert(instructions@.take(i as int) == instructions@);
    keys
}

/// Whether `keys` holds at most `bound` distinct keys.
fn distinct_at_most(keys: &Vec<Pubkey>, bound: usize) -> (r: bool)
    ensures
        r == (keys@.to_set().len() <= bound),
{
    broadcast use vstd::seq_lib::group_seq_properties;

    let mut seen: Vec<Pubkey> = Vec::new();
    let mut k: usize = 0;
    while k < keys.len()
        invariant
            k <= keys@.len(),
            seen@.no_duplicates(),
            seen@.to_set() == keys@.take(k as int).to_set(),
            seen@.len() <= bound,
        decreases keys@.len() - k,
    {
        let key = keys[k];
        let mut found = false;
        let mut m: usize = 0;
        while m < seen.len()
            invariant
                m <= seen@.len(),
                found ==> seen@.contains(key),
                !found ==> forall|t: int| 0 <= t < m ==> seen@[t] != key,
            decreases seen@.len() - m,
        {
            if seen[m] == key {
                found = true;
            }
            m = m + 1;
        }
        assert(keys@.take(k + 1) == keys@.take(k as int).push(key));
        proof {
            keys@.take(k as int).lemma_push_to_set_commute(key);
            seen@.lemma_push_to_set_commute(key);
            if found {
                assert(seen@.to_set().insert(key) =~= seen@.to_set());
            }
        }
        if !found {
            let ghost grown = seen@.push(key);
            assert(grown.no_duplicates());
            if seen.len() == bound {
                proof {
                    grown.unique_seq_to_set();
                    assert(grown.to_set() == keys@.take(k + 1).to_set());
                    assert(keys@.take(k + 1).to_set().subset_of(keys@.to_set())) by {
                        assert forall|x: Pubkey|
                            keys@.take(k + 1).to_set().contains(x) implies keys@.to_set().contains(
                            x,
                        ) by {
                            let t = choose|t: int| 0 <= t < k + 1 && #[trigger] keys@.take(k + 1)[t] == x;
                            assert(keys@[t] == x);
                        }
                    }
                    vstd::set_lib::lemma_len_subset(grown.to_set(), keys@.to_set());
                }
                return false;
            }
            seen.push(key);
        }
        k = k + 1;
    }
    proof {
        seen@.unique_seq_to_set();
        assert(keys@.take(k as int) == keys@);
    }
    true
}

/// Whether the instructions fit in one message together with a payer.
pub fn fits_message(instructions: &[Instruction]) -> (r: bool)
    ensures
        r == fits(instructions@),
{
    if instructions.len() > MAX_SHORT_VEC {
        return false;
    }
    let mut i: usize = 0;
    while i < instructions.len()
        invariant
            i <= instructions@.len(),
            forall|t: int|
                0 <= t < i ==> (#[trigger] instructions@[t]).accounts@.len() <= MAX_SHORT_VEC
                    && instructions@[t].data@.len() <= MAX_SHORT_VEC,
        decreases instructions@.len() - i,
    {
        if instructions[i].accounts.len() > MAX_SHORT_VEC || instructions[i].data.len()
            > MAX_SHORT_VEC {
            return false;
        }
        i = i + 1;
    }
    let keys = collect_keys(instructions);
    distinct_at_most(&keys, MAX_NAMED_KEYS)
}

/// The keypair that 64 bytes of key material hold, if they hold one.
pub uninterp spec fn keypair_of(bytes: Seq<u8>) -> Option<Keypair>;

/// Relies on `Keypair::from_bytes`, which accepts the bytes exactly when they
/// hold a secret key and its own public key; the keypair depends on the bytes
/// alone.
#[verifier::external_body]
pub(crate) fn parse_keypair(bytes: &[u8; 64]) -> (r: Option<Keypair>)
    ensures
        r == keypair_of(bytes@),
{
    Keypair::from_bytes(bytes).ok()
}

/// The public key of a keypair.
pub uninterp spec fn signer_pubkey(k: Keypair) -> Pubkey;

/// The signature that a keypair makes of a message; ed25519 signing is
/// deterministic.
pub uninterp spec fn signature_by(k: Keypair, m: Message) -> Signature;

/// Every list of the message is short enough for its length prefix.
pub open spec fn serializable(m: Message) -> bool {
    &&& m.account_keys@.len() <= MAX_SHORT_VEC
    &&& m.instructions@.len() <= MAX_SHORT_VEC
    &&& forall|i: int|
        0 <= i < m.instructions@.len() ==> (#[trigger] m.instructions@[i]).accounts@.len()
            <= MAX_SHORT_VEC && m.instructions@[i].data@.len() <= MAX_SHORT_VEC
}

/// Every account that the instructions mark as a signer is `payer`.
pub open spec fn only_payer_signs(ins: Seq<Instruction>, payer: Pubkey) -> bool {
    forall|i: int, j: int|
        0 <= i < ins.len() && 0 <= j < ins[i].accounts@.len() && (
        #[trigger] ins[i].accounts@[j]).is_signer ==> ins[i].accounts@[j].pubkey == payer
}

/// The compiled instruction `c` names, through `keys`, the program, the
/// accounts and the data of `ix`.
pub open spec fn compiles_to(ix: Instruction, c: CompiledInstruction, keys: Seq<Pubkey>) -> bool {
    &&& (c.program_id_index as int) < keys.len()
    &&& keys[c.program_id_index as int] == ix.program_id
    &&& c.data@ == ix.data@
    &&& c.accounts@.len() == ix.accounts@.len()
    &&& forall|j: int|
        0 <= j < c.accounts@.len() ==> (#[trigger] c.accounts@[j] as int) < keys.len() && keys[c.accounts@[j] as int]
            == ix.accounts@[j].pubkey
}

/// The message carries the instructions `ins`, in order, with `payer` as its
/// first key.
pub open spec fn carries(m: Message, ins: Seq<Instruction>, payer: Pubkey) -> bool {
    &&& m.account_keys@.len() >= 1
    &&& m.account_keys@[0] == payer
    &&& m.header.num_required_signatures >= 1
    &&& m.instructions@.len() == ins.len()
    &&& forall|i: int|
        0 <= i < ins.len() ==> compiles_to(ins[i], #[trigger] m.instructions@[i], m.account_keys@)
}

/// Relies on `Signer::pubkey` of a keypair, to name the fee payer.
#[verifier::external_body]
pub(crate) fn payer_key(payer: &Keypair) -> (r: Pubkey)
    ensures
        r == signer_pubkey(*payer),
{
    payer.pubkey()
}

/// Relies on `Transaction::new_with_payer`, which compiles the instructions
/// into a message whose first key is the payer, and leaves one blank
/// signature for each required signer: the payer, and each other key that an
/// instruction marks as a signer. It panics when the distinct keys overflow a
/// one-byte count, which the bound on named keys rules out.
#[verifier::external_body]
pub(crate) fn unsigned_envelope(instructions: &[Instruction], payer: &Pubkey) -> (r: Transaction)
    requires
        fits(instructions@),
    ensures
        r.message.account_keys@.len() <= MAX_NAMED_KEYS + 1,
        carries(r.message, instructions@, *payer),
        r.signatures@.len() == r.message.header.num_required_signatures as int,
        r.message.header.num_required_signatures == 1 <==> only_payer_signs(instructions@, *payer),
{
    Transaction::new_with_payer(instructions, Some(payer))
}

/// Relies on `Transaction::try_sign`, which sets the freshness token, signs
/// the message with the keypair in the keypair's own slot among the required
/// signers, and fails unless every required signature is then present. The
/// message is otherwise left as it is and no signature slot is added or
/// removed; the payer's own slot then holds its signature of the message.
/// Where the keypair is the one required signer, signing succeeds: a
/// keypair's signing never fails, and an ed25519 signature never equals the
/// blank (all-zero) one. It panics when a list of the message is too long for
/// its length prefix, or when there are fewer signature slots than required
/// signers; the `requires` rules both out.
#[verifier::external_body]
pub(crate) fn sign_envelope(tx: &mut Transaction, payer: &Keypair, block: hash::Hash) -> (r: Result<
    (),
    SignerError,
>)
    requires
        old(tx).signatures@.len() == old(tx).message.header.num_required_signatures as int,
        serializable(old(tx).message),
    ensures
        final(tx).signatures@.len() == old(tx).signatures@.len(),
        final(tx).message.header == old(tx).message.header,
        final(tx).message.account_keys == old(tx).message.account_keys,
        final(tx).message.instructions == old(tx).message.instructions,
        r is Ok ==> final(tx).message.recent_blockhash == block,
        r is Ok && old(tx).message.account_keys@.len() >= 1 && old(tx).message.account_keys@[0]
            == signer_pubkey(*payer) ==> final(tx).signatures@.len() >= 1
            && final(tx).signatures@[0] == signature_by(*payer, final(tx).message),
        old(tx).message.header.num_required_signatures == 1 && old(tx).signatures@.len() == 1
            && old(tx).message.account_keys@.len() >= 1 && old(tx).message.account_keys@[0]
            == signer_pubkey(*payer) ==> r is Ok,
{
    tx.try_sign(&[payer], block)
}

} // verus!
