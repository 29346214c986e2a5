//! The start-up of the module: check (or set) its master address, clear its
//! archive, then load the configured meters; as decisions on the events that
//! come back.
use vstd::prelude::*;

use crate::error::{Error, PlcInitError};
use crate::protocol::app_data::Address;

verus! {

/// Where the start-up stands.
#[derive(Debug, Clone, Copy, PartialEq, Eq)]
pub enum InitStep {
    /// Waiting (with a time limit) for the module to report its address.
    WaitReport,
    /// Asking for the module information; the attempt (from zero; three in all).
    QueryAddress(u8),
    /// Waiting for the outcome of setting the master address.
    SetAddress,
    /// Waiting for the module's archive to be cleared.
    ClearFiles,
    /// Waiting for the configured meters to be loaded.
    LoadFiles,
    Done,
    Failed,
}

/// What came back to the start-up.
#[derive(Debug, PartialEq, Eq)]
pub enum InitEvent {
    /// The wait for the module's report ran out.
    WaitTimedOut,
    /// The outcome of what was asked.
    Result(Result<(), Error>),
    /// The module's address.
    Address(Address),
}

/// What the start-up asks for next.
#[derive(Debug, PartialEq, Eq)]
pub enum InitAction {
    /// Ask for the module information.
    GetModuleInfo,
    /// Set the module's master address.
    SetAddress(Address),
    /// Clear the module's archive.
    ClearAcqFiles,
    /// Count a parameter initialisation, then load the configured meters.
    LoadConfig,
    /// The start-up is over, with this outcome.
    Finished(Result<(), Error>),
    /// Keep waiting.
    Wait,
}

/// The start-up of the module towards the master address it should have.
#[derive(Debug, Clone, Copy, PartialEq, Eq)]
pub struct PlcInit {
    pub master_address: Address,
    pub step: InitStep,
}

/// The error of a wait that got something else than it expected.
pub open spec fn spec_invalid() -> Error {
    Error::PlcInit(PlcInitError::InvalidEvent)
}

/// The step and request after an address came back: a matching address goes on
/// to clearing the archive, another one has the master address set.
pub open spec fn spec_on_address(master: Address, a: Address) -> (InitStep, InitAction) {
    if a == master {
        (InitStep::ClearFiles, InitAction::ClearAcqFiles)
    } else {
        (InitStep::SetAddress, InitAction::SetAddress(master))
    }
}

/// The start-up's decision on an event.
pub open spec fn spec_transition(master: Address, step: InitStep, event: InitEvent) -> (InitStep, InitAction) {
    match step {
        InitStep::WaitReport => match event {
            InitEvent::Address(a) => spec_on_address(master, a),
            _ => (InitStep::QueryAddress(0), InitAction::GetModuleInfo),
        },
        InitStep::QueryAddress(i) => match event {
            InitEvent::Address(a) => spec_on_address(master, a),
            _ => if i < 2 {
                (InitStep::QueryAddress((i + 1) as u8), InitAction::GetModuleInfo)
            } else {
                (InitStep::Failed, InitAction::Finished(Err(spec_invalid())))
            },
        },
        InitStep::SetAddress => match event {
            InitEvent::Result(Ok(_)) => (InitStep::ClearFiles, InitAction::ClearAcqFiles),
            InitEvent::Result(Err(e)) => (InitStep::Failed, InitAction::Finished(Err(e))),
            _ => (InitStep::Failed, InitAction::Finished(Err(spec_invalid()))),
        },
        InitStep::ClearFiles => match event {
            InitEvent::Result(Ok(_)) => (InitStep::LoadFiles, InitAction::LoadConfig),
            InitEvent::Result(Err(e)) => (InitStep::Failed, InitAction::Finished(Err(e))),
            _ => (InitStep::ClearFiles, InitAction::Wait),
        },
        InitStep::LoadFiles => match event {
            InitEvent::Result(Ok(_)) => (InitStep::Done, InitAction::Finished(Ok(()))),
            InitEvent::Result(Err(e)) => (InitStep::Failed, InitAction::Finished(Err(e))),
            _ => (InitStep::LoadFiles, InitAction::Wait),
        },
        _ => (step, InitAction::Wait),
    }
}

impl PlcInit {
    /// A start-up that waits for the module's report.
    pub fn new(master_address: Address) -> (r: Self)
        ensures
            r.master_address == master_address,
            r.step == InitStep::WaitReport,
    {
        PlcInit { master_address, step: InitStep::WaitReport }
    }

    /// Whether the start-up finished well.
    pub fn initailized(&self) -> (b: bool)
        ensures
            b == (self.step == InitStep::Done),
    {
        match self.step {
            InitStep::Done => true,
            _ => false,
        }
    }

    fn on_address(&self, a: Address) -> (r: (InitStep, InitAction))
        ensures
            r == spec_on_address(self.master_address, a),
    {
        if a.0[0] == self.master_address.0[0] && a.0[1] == self.master_address.0[1] && a.0[2]
            == self.master_address.0[2] && a.0[3] == self.master_address.0[3] && a.0[4]
            == self.master_address.0[4] && a.0[5] == self.master_address.0[5] {
            assert(a.0 =~= self.master_address.0);
            (InitStep::ClearFiles, InitAction::ClearAcqFiles)
        } else {
            (InitStep::SetAddress, InitAction::SetAddress(self.master_address))
        }
    }

    /// Takes an event in (see `spec_transition`) and says what to do.
    pub fn on_event(&mut self, event: InitEvent) -> (a: InitAction)
        ensures
            final(self).master_address == old(self).master_address,
            (final(self).step, a) == spec_transition(old(self).master_address, old(self).step, event),
    {
        let (step, action) = match self.step {
            InitStep::WaitReport => match event {
                InitEvent::Address(a) => self.on_address(a),
                _ => (InitStep::QueryAddress(0), InitAction::GetModuleInfo),
            },
            InitStep::QueryAddress(i) => match event {
                InitEvent::Address(a) => self.on_address(a),
                _ => if i < 2 {
                    (InitStep::QueryAddress(i + 1), InitAction::GetModuleInfo)
                } else {
                    (InitStep::Failed, InitAction::Finished(Err(Error::PlcInit(PlcInitError::InvalidEvent))))
                },
            },
            InitStep::SetAddress => match event {
                InitEvent::Result(Ok(())) => (InitStep::ClearFiles, InitAction::ClearAcqFiles),
                InitEvent::Result(Err(e)) => (InitStep::Failed, InitAction::Finished(Err(e))),
                _ => (InitStep::Failed, InitAction::Finished(Err(Error::PlcInit(PlcInitError::InvalidEvent)))),
            },
            InitStep::ClearFiles => match event {
                InitEvent::Result(Ok(())) => (InitStep::LoadFiles, InitAction::LoadConfig),
                InitEvent::Result(Err(e)) => (InitStep::Failed, InitAction::Finished(Err(e))),
                _ => (InitStep::ClearFiles, InitAction::Wait),
            },
            InitStep::LoadFiles => match event {
                InitEvent::Result(Ok(())) => (InitStep::Done, InitAction::Finished(Ok(()))),
                InitEvent::Result(Err(e)) => (InitStep::Failed, InitAction::Finished(Err(e))),
                _ => (InitStep::LoadFiles, InitAction::Wait),
            },
            other => (other, InitAction::Wait),
        };
        self.step = step;
        action
    }
}

} // verus!
