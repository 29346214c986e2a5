//! Pausing and resuming the module's own metering: automatically around requests
//! that need the channel (with a timer that resumes metering later), and on
//! request over MQTT.
use vstd::prelude::*;

use crate::error::Error;
use crate::mqtt_message::MqttMessage;
use crate::protocol::app_data::meter_ctrl::{PauseMetering, RestartMetering, ResumeMetering};
use crate::protocol::app_data::{Afn, AppData};
use crate::protocol::frame::FrameSeq;
use crate::request_info::{MqttReqInfo, UartMessage};
use crate::service::parse_response::{mqtt_info_request_uart_handler, mqtt_response_message, spec_outcome_status};

verus! {

/// Whether the module meters on its own.
#[derive(Debug, Clone, Copy, PartialEq, Eq, Structural)]
pub enum MeterState {
    Pause,
    Resume,
}

/// The three requests on the module's metering.
#[derive(Debug, Clone, Copy, PartialEq, Eq, Structural)]
pub enum MeteringOp {
    Pause,
    Resume,
    Restart,
}

impl MeteringOp {
    /// The state a request leads to; restarting names none.
    pub open spec fn spec_target(self) -> Option<MeterState> {
        match self {
            MeteringOp::Pause => Some(MeterState::Pause),
            MeteringOp::Resume => Some(MeterState::Resume),
            MeteringOp::Restart => None,
        }
    }

    /// The request's function number (AFN 12H).
    pub open spec fn spec_fn_num(self) -> u8 {
        match self {
            MeteringOp::Pause => 2,
            MeteringOp::Resume => 3,
            MeteringOp::Restart => 1,
        }
    }

    fn app_data(self) -> (a: AppData)
        ensures
            a.spec_has(Afn::RouteCtrl, self.spec_fn_num(), None),
    {
        match self {
            MeteringOp::Pause => AppData::from(PauseMetering),
            MeteringOp::Resume => AppData::from(ResumeMetering),
            MeteringOp::Restart => AppData::from(RestartMetering),
        }
    }
}

/// What the caller is asked to do.
pub enum RouteAction<T, C> {
    Nothing,
    /// Start the resume timer again.
    RestartTimer,
    /// Send the request and hand its outcome back.
    Send(UartMessage<T, C>),
}

/// The metering state, and whether the timer that resumes metering is set.
#[derive(Debug, Clone, Copy, PartialEq, Eq)]
pub struct RouteCtrl {
    pub state: MeterState,
    pub resume_timer: bool,
    /// Seconds after which a pause is lifted.
    pub resume_interval: u32,
}

/// The state after a request's success: its target, or `Resume` for a restart.
pub open spec fn spec_after(op: MeteringOp) -> MeterState {
    match op.spec_target() {
        Some(s) => s,
        None => MeterState::Resume,
    }
}

impl RouteCtrl {
    pub fn new(resume_interval: u32) -> (r: Self)
        ensures
            r.state == MeterState::Resume,
            !r.resume_timer,
            r.resume_interval == resume_interval,
    {
        RouteCtrl { state: MeterState::Resume, resume_timer: false, resume_interval }
    }

    /// An answer came from the module: a set resume timer starts again.
    pub fn uart_response_update_resume_timer(&self) -> (restart: bool)
        ensures
            restart == self.resume_timer,
    {
        self.resume_timer
    }

    /// Before a request that needs the channel: nothing while paused (a set timer
    /// starts again), else the pause request (answered to no one).
    pub fn auto_pause_metering<T, C>(&self, seq: &mut FrameSeq) -> (a: RouteAction<T, C>)
        ensures
            self.state == MeterState::Pause && self.resume_timer ==> a is RestartTimer
                && final(seq).spec_next() == old(seq).spec_next(),
            self.state == MeterState::Pause && !self.resume_timer ==> a is Nothing
                && final(seq).spec_next() == old(seq).spec_next(),
            self.state == MeterState::Resume ==> (a matches RouteAction::Send(m)
                && m.frame.user_data.app_data.spec_has(Afn::RouteCtrl, 2, None) && m.req_info.mqtt_req_info is None
                && m.req_info.seq_num == old(seq).spec_next()),
    {
        match self.state {
            MeterState::Pause => if self.resume_timer {
                RouteAction::RestartTimer
            } else {
                RouteAction::Nothing
            },
            MeterState::Resume => RouteAction::Send(
                mqtt_info_request_uart_handler(MeteringOp::Pause.app_data(), None, seq),
            ),
        }
    }

    /// The pause request's outcome: on success metering is paused and the resume
    /// timer is set (the caller starts it).
    pub fn auto_pause_result(&mut self, result: Result<(), Error>) -> (r: Result<(), Error>)
        ensures
            r == result,
            result is Ok ==> final(self).state == MeterState::Pause && final(self).resume_timer
                && final(self).resume_interval == old(self).resume_interval,
            result is Err ==> *final(self) == *old(self),
    {
        if result.is_ok() {
            self.state = MeterState::Pause;
            self.resume_timer = true;
        }
        result
    }

    /// The resume timer fired: nothing when metering already runs, else the resume
    /// request (answered to no one).
    pub fn auto_resume_metering<T, C>(&self, seq: &mut FrameSeq) -> (m: Option<UartMessage<T, C>>)
        ensures
            self.state == MeterState::Resume ==> m is None && final(seq).spec_next() == old(seq).spec_next(),
            self.state == MeterState::Pause ==> (m matches Some(u) && u.frame.user_data.app_data.spec_has(
                Afn::RouteCtrl,
                3,
                None,
            ) && u.req_info.mqtt_req_info is None && u.req_info.seq_num == old(seq).spec_next()),
    {
        match self.state {
            MeterState::Resume => None,
            MeterState::Pause => Some(mqtt_info_request_uart_handler(MeteringOp::Resume.app_data(), None, seq)),
        }
    }

    /// The resume request's outcome: on success metering runs.
    pub fn auto_resume_result(&mut self, result: Result<(), Error>) -> (r: Result<(), Error>)
        ensures
            r == result,
            result is Ok ==> final(self).state == MeterState::Resume && final(self).resume_timer
                == old(self).resume_timer && final(self).resume_interval == old(self).resume_interval,
            result is Err ==> *final(self) == *old(self),
    {
        if result.is_ok() {
            self.state = MeterState::Resume;
        }
        result
    }

    /// An MQTT request on metering: none is needed when metering is already in
    /// the requested state; otherwise the request, answered on the request's
    /// answer topic.
    pub fn mqtt_operating_metering<T, C>(&self, op: MeteringOp, message: &MqttMessage, seq: &mut FrameSeq) -> (m: Option<UartMessage<T, C>>)
        requires
            message.spec_answerable(),
        ensures
            op.spec_target() == Some(self.state) ==> m is None && final(seq).spec_next() == old(seq).spec_next(),
            op.spec_target() != Some(self.state) ==> {
                &&& m matches Some(u)
                &&& u.frame.user_data.app_data.spec_has(Afn::RouteCtrl, op.spec_fn_num(), None)
                &&& u.req_info.mqtt_req_info matches Some(i)
                &&& i.topic@ == crate::mqtt_topic::spec_transfer_text(message.topic@)
                &&& Some(i.token@) == message.spec_token()
                &&& u.req_info.seq_num == old(seq).spec_next()
            },
    {
        let same = match (op, self.state) {
            (MeteringOp::Pause, MeterState::Pause) => true,
            (MeteringOp::Resume, MeterState::Resume) => true,
            _ => false,
        };
        if same {
            None
        } else {
            Some(mqtt_info_request_uart_handler(op.app_data(), Some(message.to_mqtt_req_info()), seq))
        }
    }

    /// The outcome of an MQTT request on metering (success where no request was
    /// needed): on success the state is the request's and the resume timer is
    /// dropped; the answer goes on the request's answer topic.
    pub fn mqtt_operating_result(&mut self, op: MeteringOp, result: Result<(), Error>, message: &MqttMessage) -> (a: MqttMessage)
        requires
            message.spec_answerable(),
        ensures
            result is Ok ==> final(self).state == spec_after(op) && !final(self).resume_timer
                && final(self).resume_interval == old(self).resume_interval,
            result is Err ==> *final(self) == *old(self),
            a.topic@ == crate::mqtt_topic::spec_transfer_text(message.topic@),
            exists|ts: Seq<char>|
                a.payload@ == crate::mqtt_message::status_payload_text(
                    message.spec_token()->0,
                    ts,
                    spec_outcome_status(result).0,
                    spec_outcome_status(result).1,
                ),
    {
        if result.is_ok() {
            self.state = match op {
                MeteringOp::Pause => MeterState::Pause,
                MeteringOp::Resume => MeterState::Resume,
                MeteringOp::Restart => MeterState::Resume,
            };
            self.resume_timer = false;
        }
        let info: MqttReqInfo<()> = message.to_mqtt_req_info();
        let ghost token = info.token@;
        let a = mqtt_response_message(result, info);
        proof {
            let ts = choose|ts: Seq<char>|
                a.payload@ == crate::mqtt_message::status_payload_text(
                    token,
                    ts,
                    spec_outcome_status(result).0,
                    spec_outcome_status(result).1,
                );
            assert(a.payload@ == crate::mqtt_message::status_payload_text(
                message.spec_token()->0,
                ts,
                spec_outcome_status(result).0,
                spec_outcome_status(result).1,
            ));
        }
        a
    }
}

} // verus!
