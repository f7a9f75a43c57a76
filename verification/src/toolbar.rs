//! Shared miner toolbar state: the synchronization point through which the
//! coordinator and the submitter publish progress and through which the UI
//! observes it. Every update replaces the whole value, so a concurrent reader
//! never sees a partially written state.
use vstd::prelude::*;

verus! {

/// Overall miner status. Within a session the status moves forward
/// (`NotStarted` to `Activating` to `Active`), except that `Active` and
/// `Error` may alternate. Callers are responsible for legal transitions;
/// the container itself does not reject any.
#[derive(Clone, Copy, Debug, PartialEq, Eq, Structural)]
pub enum MinerStatus {
    NotStarted,
    Activating,
    Active,
    Error,
}

/// Fine-grained progress message. `Submitting(attempt, fee)` carries the
/// current attempt counter and the priority fee in use, so observers see
/// live submission progress.
#[derive(Clone, Copy, Debug, PartialEq, Eq, Structural)]
pub enum MinerStatusMessage {
    Searching,
    Submitting(u64, u64),
    Error,
}

/// The single shared toolbar state instance.
#[derive(Clone, Copy)]
pub struct MinerToolbarState {
    pub status: MinerStatus,
    pub status_message: MinerStatusMessage,
    /// The best hash of the last evaluated batch, shown to the user.
    pub display_hash: [u8; 32],
    /// Address of the miner's escrow account.
    pub escrow_address: [u8; 32],
    pub is_open: bool,
    /// Every status message published so far, oldest first. Updates replace
    /// the whole value, so an observer of the shared instance sees exactly
    /// this sequence of messages: contracts over it say what was published
    /// on the way, not only what stands at the end.
    pub published: Ghost<Seq<MinerStatusMessage>>,
}

impl MinerToolbarState {
    /// A fresh toolbar: closed, not started, searching, all-zero addresses.
    pub fn new() -> (r: MinerToolbarState)
        ensures
            r.status == MinerStatus::NotStarted,
            r.status_message == MinerStatusMessage::Searching,
            r.display_hash@ == Seq::<u8>::new(32, |i: int| 0u8),
            r.escrow_address@ == Seq::<u8>::new(32, |i: int| 0u8),
            !r.is_open,
            r.published@ == Seq::<MinerStatusMessage>::empty(),
    {
        let r = MinerToolbarState {
            status: MinerStatus::NotStarted,
            status_message: MinerStatusMessage::Searching,
            display_hash: [0u8; 32],
            escrow_address: [0u8; 32],
            is_open: false,
            published: Ghost(Seq::empty()),
        };
        proof {
            assert(r.display_hash@ =~= Seq::<u8>::new(32, |i: int| 0u8));
            assert(r.escrow_address@ =~= Seq::<u8>::new(32, |i: int| 0u8));
        }
        r
    }
}

/// Read access to the toolbar state.
pub trait ReadMinerToolbarState {
    spec fn state(&self) -> MinerToolbarState;

    fn status(&self) -> (r: MinerStatus)
        ensures
            r == self.state().status,
    ;

    fn status_message(&self) -> (r: MinerStatusMessage)
        ensures
            r == self.state().status_message,
    ;

    fn display_hash(&self) -> (r: [u8; 32])
        ensures
            r == self.state().display_hash,
    ;

    fn is_open(&self) -> (r: bool)
        ensures
            r == self.state().is_open,
    ;

    fn escrow_address(&self) -> (r: [u8; 32])
        ensures
            r == self.state().escrow_address,
    ;
}

impl ReadMinerToolbarState for MinerToolbarState {
    open spec fn state(&self) -> MinerToolbarState {
        *self
    }

    fn status(&self) -> (r: MinerStatus) {
        self.status
    }

    fn status_message(&self) -> (r: MinerStatusMessage) {
        self.status_message
    }

    fn display_hash(&self) -> (r: [u8; 32]) {
        self.display_hash
    }

    fn is_open(&self) -> (r: bool) {
        self.is_open
    }

    fn escrow_address(&self) -> (r: [u8; 32]) {
        self.escrow_address
    }
}

/// Write access to the toolbar state. Each setter replaces exactly one
/// field group and leaves every other field as it was.
pub trait UpdateMinerToolbarState {
    spec fn ustate(&self) -> MinerToolbarState;

    /// Open the toolbar and begin activating the miner.
    fn start(&mut self)
        ensures
            final (self).ustate() == (MinerToolbarState {
                status: MinerStatus::Activating,
                is_open: true,
                ..old(self).ustate()
            }),
    ;

    /// Close the toolbar and stop the miner.
    fn pause(&mut self)
        ensures
            final (self).ustate() == (MinerToolbarState {
                status: MinerStatus::NotStarted,
                is_open: false,
                ..old(self).ustate()
            }),
    ;

    fn set_is_open(&mut self, is_open: bool)
        ensures
            final (self).ustate() == (MinerToolbarState { is_open, ..old(self).ustate() }),
    ;

    fn set_display_hash(&mut self, hash: [u8; 32])
        ensures
            final (self).ustate() == (MinerToolbarState {
                display_hash: hash,
                ..old(self).ustate()
            }),
    ;

    /// Publish a new status message: the message replaces the current one
    /// and is appended to the published history.
    fn set_status_message(&mut self, status_message: MinerStatusMessage)
        ensures
            final (self).ustate().status_message == status_message,
            final (self).ustate().published@ == old(self).ustate().published@.push(
                status_message,
            ),
            final (self).ustate().status == old(self).ustate().status,
            final (self).ustate().display_hash == old(self).ustate().display_hash,
            final (self).ustate().escrow_address == old(self).ustate().escrow_address,
            final (self).ustate().is_open == old(self).ustate().is_open,
    ;

    fn set_status(&mut self, status: MinerStatus)
        ensures
            final (self).ustate() == (MinerToolbarState { status, ..old(self).ustate() }),
    ;

    fn set_escrow_address(&mut self, address: [u8; 32])
        ensures
            final (self).ustate() == (MinerToolbarState {
                escrow_address: address,
                ..old(self).ustate()
            }),
    ;
}

impl UpdateMinerToolbarState for MinerToolbarState {
    open spec fn ustate(&self) -> MinerToolbarState {
        *self
    }

    fn start(&mut self) {
        self.status = MinerStatus::Activating;
        self.is_open = true;
    }

    fn pause(&mut self) {
        self.status = MinerStatus::NotStarted;
        self.is_open = false;
    }

    fn set_is_open(&mut self, is_open: bool) {
        self.is_open = is_open;
    }

    fn set_display_hash(&mut self, hash: [u8; 32]) {
        self.display_hash = hash;
    }

    fn set_status_message(&mut self, status_message: MinerStatusMessage) {
        self.published = Ghost(self.published@.push(status_message));
        self.status_message = status_message;
    }

    fn set_status(&mut self, status: MinerStatus) {
        self.status = status;
    }

    fn set_escrow_address(&mut self, address: [u8; 32]) {
        self.escrow_address = address;
    }
}

} // verus!
