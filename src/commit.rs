//! The two-phase commit unit that ties the token transfer of a transition to
//! its record update, so that both take effect or neither does.
use vstd::prelude::*;
use crate::error::EscrowError;
use crate::reconcile::TokenOutput;
use crate::timelock::CompressedAccount;

verus! {

/// The flags handed to both sub-calls of one transition.
#[derive(Clone, Copy, Debug, PartialEq, Eq, Structural)]
pub struct CommitContext {
    /// More effects of this unit follow.
    pub set_context: bool,
    /// This sub-call opens the unit rather than continuing it.
    pub first_set_context: bool,
    /// Index of the context account among the supplied accounts.
    pub cpi_context_account_index: u8,
}

#[derive(Clone, Copy, Debug, PartialEq, Eq, Structural)]
pub enum CommitPhase {
    /// Opened; nothing staged yet.
    Open,
    /// The token transfer is staged; the record update has not run.
    Pending,
    /// Both sub-calls succeeded and their effects are visible.
    Committed,
    /// The record update failed; nothing of the unit is visible.
    RolledBack,
}

/// The effects of one unit: the transfer staged by the first sub-call, and
/// what has become visible. Records are applied by the second sub-call only.
#[derive(Clone, Debug)]
pub struct CommitUnit {
    pub context: CommitContext,
    pub phase: CommitPhase,
    pub staged_tokens: Vec<TokenOutput>,
    pub staged_custody: u64,
    pub visible_tokens: Vec<TokenOutput>,
    pub visible_custody: u64,
    pub visible_records: Vec<CompressedAccount>,
}

impl CommitUnit {
    /// Nothing is visible before the unit commits, and once committed exactly
    /// what was staged is.
    pub open spec fn wf(&self) -> bool {
        if self.phase == CommitPhase::Committed {
            &&& self.visible_tokens@ == self.staged_tokens@
            &&& self.visible_custody == self.staged_custody
        } else {
            self.nothing_visible()
        }
    }

    pub open spec fn nothing_visible(&self) -> bool {
        &&& self.visible_tokens@.len() == 0
        &&& self.visible_custody == 0
        &&& self.visible_records@.len() == 0
    }

    /// Opens a unit under `context`, with nothing staged.
    pub fn open(context: CommitContext) -> (r: CommitUnit)
        ensures
            r.wf(),
            r.phase == CommitPhase::Open,
            r.context == context,
            r.staged_tokens@.len() == 0,
            r.staged_custody == 0,
    {
        CommitUnit {
            context,
            phase: CommitPhase::Open,
            staged_tokens: Vec::new(),
            staged_custody: 0,
            visible_tokens: Vec::new(),
            visible_custody: 0,
            visible_records: Vec::new(),
        }
    }

    /// Stages the token transfer: `custody` moved into the escrow and the
    /// token outputs created. Marks that more effects of the unit follow.
    pub fn mark_pending(&mut self, tokens: Vec<TokenOutput>, custody: u64)
        requires
            old(self).wf(),
            old(self).phase == CommitPhase::Open,
        ensures
            final(self).wf(),
            final(self).phase == CommitPhase::Pending,
            final(self).context == (CommitContext { set_context: true, ..old(self).context }),
            final(self).staged_tokens@ == tokens@,
            final(self).staged_custody == custody,
            final(self).nothing_visible(),
    {
        self.context.set_context = true;
        self.staged_tokens = tokens;
        self.staged_custody = custody;
        self.phase = CommitPhase::Pending;
    }

    /// Runs the record update, whose proof the verifier accepted or not. On
    /// acceptance everything staged becomes visible at once; on rejection the
    /// unit rolls back and the transfer staged before it never shows.
    pub fn finalize(&mut self, records: Vec<CompressedAccount>, proof_accepted: bool) -> (r: Result<
        (),
        EscrowError,
    >)
        requires
            old(self).wf(),
            old(self).phase == CommitPhase::Pending,
        ensures
            final(self).wf(),
            final(self).context == (CommitContext {
                first_set_context: false,
                ..old(self).context
            }),
            final(self).staged_tokens@ == old(self).staged_tokens@,
            final(self).staged_custody == old(self).staged_custody,
            proof_accepted ==> r is Ok && final(self).phase == CommitPhase::Committed
                && final(self).visible_records@ == records@,
            !proof_accepted ==> r == Err::<(), EscrowError>(EscrowError::ProofInvalid)
                && final(self).phase == CommitPhase::RolledBack && final(self).nothing_visible(),
    {
        self.context.first_set_context = false;
        if proof_accepted {
            self.visible_tokens = self.staged_tokens.clone();
            self.visible_custody = self.staged_custody;
            self.visible_records = records;
            self.phase = CommitPhase::Committed;
            Ok(())
        } else {
            self.phase = CommitPhase::RolledBack;
            Err(EscrowError::ProofInvalid)
        }
    }
}

} // verus!
