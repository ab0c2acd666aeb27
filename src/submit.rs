//! The submission engine: the decisions that carry one operation from the
//! freshest ledger reference, through signing and submission, to the end of
//! the confirmation race. The caller performs each requested action against
//! the endpoint and hands the outcome back as an event.
use crate::classify::{classifies, process_rpc_error};
use crate::config::Config;
use crate::error::{Error, Precondition, RawError};
use crate::ledger::{
    carries, fits, keypair_of, only_payer_signs, parse_keypair, payer_key, sign_envelope,
    signature_by, signer_pubkey, unsigned_envelope,
};
use crate::waiter::{is_terminal, next_level, Acceptance, ConfirmationWaiter, Decision, PollOutcome};
use solana_sdk::hash;
use solana_sdk::instruction::Instruction;
use solana_sdk::signature::{Keypair, Signature};
use solana_sdk::transaction::Transaction;
use vstd::prelude::*;

verus! {

/// Where a submission stands.
#[derive(Clone, Copy, Debug, PartialEq, Eq, Structural)]
pub enum Stage {
    /// Waiting for the freshest ledger reference.
    FetchingReference,
    /// The signed envelope was handed out for submission.
    Submitting,
    /// Submission passed; the two confirmation polls are racing.
    Confirming,
    /// The submission has ended.
    Done,
}

/// The outcome of an action, handed back by the caller.
pub enum Event {
    /// The freshest ledger reference, or why it could not be fetched.
    Reference(Result<hash::Hash, RawError>),
    /// The endpoint's answer to the submission. The operation stays
    /// identified by the envelope's own signature.
    Submitted(Result<Signature, RawError>),
    /// One of the two confirmation polls ended.
    Polled(PollOutcome),
}

/// What the caller is to do next.
#[derive(Debug)]
pub enum Action {
    /// Fetch the freshest ledger reference.
    FetchReference,
    /// Submit this envelope and wait for its initial confirmation.
    Submit(Transaction),
    /// Start the soft and durable confirmation polls for this signature.
    Poll(Signature),
    /// Keep waiting for the durable poll; announce soft acceptance if set.
    KeepPolling { announce_soft: bool },
    /// The submission ended: the operation's signature, or the failure.
    Finish(Result<Signature, Error>),
    /// The event did not belong to the current stage and changed nothing.
    Ignore,
}

/// One submission in progress.
pub struct Submission {
    payer: Option<Keypair>,
    instructions: Vec<Instruction>,
    stage: Stage,
    signature: Option<Signature>,
    waiter: ConfirmationWaiter,
}

impl Submission {
    pub closed spec fn stage_spec(&self) -> Stage {
        self.stage
    }

    /// The signature of the envelope, once it has been signed.
    pub closed spec fn signature_spec(&self) -> Option<Signature> {
        self.signature
    }

    /// The confirmation level seen so far.
    pub closed spec fn level_spec(&self) -> Acceptance {
        self.waiter.level_spec()
    }

    /// The instructions being submitted.
    pub closed spec fn instructions_spec(&self) -> Seq<Instruction> {
        self.instructions@
    }

    /// The payer's keypair, when the key material was valid.
    pub closed spec fn payer_spec(&self) -> Option<Keypair> {
        self.payer
    }

    pub open spec fn wf(&self) -> bool {
        &&& fits(self.instructions_spec())
        &&& self.stage_spec() is FetchingReference ==> self.payer_spec() is Some
        &&& (self.stage_spec() is Submitting || self.stage_spec() is Confirming)
            ==> self.signature_spec() is Some
        &&& (self.stage_spec() is FetchingReference || self.stage_spec() is Submitting)
            ==> self.level_spec() is Unprocessed
        &&& self.stage_spec() is Confirming ==> !is_terminal(self.level_spec())
    }

    pub fn stage(&self) -> (r: Stage)
        ensures
            r == self.stage_spec(),
    {
        self.stage
    }

    /// Starts a submission of `instructions`. The endpoint address and the
    /// payer key material must have been set (see `missing_precondition`).
    /// Key material that is not a valid keypair ends the submission at once
    /// with `Error::Keypair`; otherwise the first action is to fetch the
    /// freshest ledger reference.
    pub fn start(config: &Config, instructions: Vec<Instruction>) -> (r: (Submission, Action))
        requires
            config.rpc_http.content() is Some,
            config.trx_payer.content() is Some,
            fits(instructions@),
        ensures
            r.0.wf(),
            r.0.instructions_spec() == instructions@,
            r.0.level_spec() is Unprocessed,
            r.0.signature_spec() is None,
            r.0.payer_spec() == keypair_of(config.trx_payer.content()->Some_0@),
            if keypair_of(config.trx_payer.content()->Some_0@) is Some {
                r.0.stage_spec() is FetchingReference && r.1 is FetchReference
            } else {
                r.0.stage_spec() is Done && r.1 matches Action::Finish(Err(Error::Keypair))
            },
    {
        let bytes = config.trx_payer.get().unwrap();
        let payer = parse_keypair(bytes);
        let (stage, action) = match payer {
            Some(_) => (Stage::FetchingReference, Action::FetchReference),
            None => (Stage::Done, Action::Finish(Err(Error::Keypair))),
        };
        let s = Submission {
            payer,
            instructions,
            stage,
            signature: None,
            waiter: ConfirmationWaiter::new(),
        };
        (s, action)
    }

    /// Takes in the outcome of the last action and decides the next one.
    pub fn step(&mut self, ev: Event) -> (r: Action)
        requires
            old(self).wf(),
        ensures
            final(self).wf(),
            final(self).instructions_spec() == old(self).instructions_spec(),
            final(self).payer_spec() == old(self).payer_spec(),
            stepped(*old(self), ev, *final(self), r),
    {
        match (self.stage, ev) {
            (Stage::FetchingReference, Event::Reference(Err(e))) => {
                self.stage = Stage::Done;
                Action::Finish(Err(process_rpc_error(e)))
            },
            (Stage::FetchingReference, Event::Reference(Ok(block))) => {
                let payer = match &self.payer {
                    Some(p) => p,
                    None => {
                        return Action::Ignore;
                    },
                };
                let key = payer_key(payer);
                let mut tx = unsigned_envelope(self.instructions.as_slice(), &key);
                match sign_envelope(&mut tx, payer, block) {
                    Err(e) => {
                        self.stage = Stage::Done;
                        Action::Finish(Err(Error::Signer(e)))
                    },
                    Ok(()) => {
                        let sig = tx.signatures[0];
                        self.signature = Some(sig);
                        self.stage = Stage::Submitting;
                        Action::Submit(tx)
                    },
                }
            },
            (Stage::Submitting, Event::Submitted(Err(e))) => {
                self.stage = Stage::Done;
                Action::Finish(Err(process_rpc_error(e)))
            },
            (Stage::Submitting, Event::Submitted(Ok(_))) => match self.signature {
                Some(sig) => {
                    self.stage = Stage::Confirming;
                    Action::Poll(sig)
                },
                None => Action::Ignore,
            },
            (Stage::Confirming, Event::Polled(o)) => {
                let sig = match self.signature {
                    Some(sig) => sig,
                    None => {
                        return Action::Ignore;
                    },
                };
                match self.waiter.observe(o) {
                    Decision::KeepWaiting { announce_soft } => Action::KeepPolling { announce_soft },
                    Decision::Finalized => {
                        self.stage = Stage::Done;
                        Action::Finish(Ok(sig))
                    },
                    Decision::Abort(f) => {
                        self.stage = Stage::Done;
                        Action::Finish(Err(f))
                    },
                    Decision::Settled => Action::Ignore,
                }
            },
            _ => Action::Ignore,
        }
    }
}

/// The configuration defect, if any, that keeps a submission from starting:
/// the request endpoint is checked first, then the payer.
pub fn missing_precondition(config: &Config) -> (r: Option<Precondition>)
    ensures
        config.rpc_http.content() is None ==> r == Some(Precondition::MissingEndpoint),
        config.rpc_http.content() is Some && config.trx_payer.content() is None ==> r == Some(
            Precondition::MissingPayer,
        ),
        config.rpc_http.content() is Some && config.trx_payer.content() is Some ==> r is None,
{
    if !config.rpc_http.is_set() {
        Some(Precondition::MissingEndpoint)
    } else if !config.trx_payer.is_set() {
        Some(Precondition::MissingPayer)
    } else {
        None
    }
}

/// `tx` is the envelope for `ins`, paid by `payer`, signed by it against
/// `block`, and `after` holds the payer's signature.
pub open spec fn submits_envelope(
    tx: Transaction,
    ins: Seq<Instruction>,
    payer: Keypair,
    block: hash::Hash,
    after: Submission,
) -> bool {
    &&& carries(tx.message, ins, signer_pubkey(payer))
    &&& tx.message.recent_blockhash == block
    &&& tx.signatures@.len() == tx.message.header.num_required_signatures as int
    &&& tx.signatures@[0] == signature_by(payer, tx.message)
    &&& after.stage_spec() is Submitting
    &&& after.signature_spec() == Some(tx.signatures@[0])
}

/// `after` and `r` are what one step from `before` on `ev` gives.
pub open spec fn stepped(before: Submission, ev: Event, after: Submission, r: Action) -> bool {
    match (before.stage_spec(), ev) {
        (Stage::FetchingReference, Event::Reference(Err(e))) => {
            &&& after.stage_spec() is Done
            &&& r matches Action::Finish(Err(f)) && classifies(e, f)
        },
        (Stage::FetchingReference, Event::Reference(Ok(block))) => {
            let ins = before.instructions_spec();
            let payer = before.payer_spec()->Some_0;
            let submitted = r matches Action::Submit(tx) && submits_envelope(tx, ins, payer, block, after);
            if only_payer_signs(ins, signer_pubkey(payer)) {
                submitted
            } else {
                submitted || (after.stage_spec() is Done && r matches Action::Finish(Err(Error::Signer(_))))
            }
        },
        (Stage::Submitting, Event::Submitted(Err(e))) => {
            &&& after.stage_spec() is Done
            &&& r matches Action::Finish(Err(f)) && classifies(e, f)
        },
        (Stage::Submitting, Event::Submitted(Ok(_))) => {
            &&& after.stage_spec() is Confirming
            &&& after.signature_spec() == before.signature_spec()
            &&& r == Action::Poll(before.signature_spec()->Some_0)
        },
        (Stage::Confirming, Event::Polled(o)) => {
            &&& after.level_spec() == next_level(before.level_spec(), o)
            &&& after.signature_spec() == before.signature_spec()
            &&& match o {
                PollOutcome::Soft(Ok(())) => after.stage_spec() is Confirming && r
                    == Action::KeepPolling {
                    announce_soft: before.level_spec() is Unprocessed,
                },
                PollOutcome::Durable(Ok(())) => after.stage_spec() is Done && r == Action::Finish(
                    Ok(before.signature_spec()->Some_0),
                ),
                PollOutcome::Soft(Err(e)) => after.stage_spec() is Done && (r matches Action::Finish(
                    Err(f),
                ) && classifies(e, f)),
                PollOutcome::Durable(Err(e)) => after.stage_spec() is Done && (
                r matches Action::Finish(Err(f)) && classifies(e, f)),
            }
        },
        _ => after == before && r is Ignore,
    }
}

} // verus!
