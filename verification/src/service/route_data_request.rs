//! What the route asks of the concentrator while it routes: the clock, and
//! whether a delayed message may go.
use vstd::prelude::*;

use crate::error::Error;
use crate::protocol::app_data::route_data_read::{
    spec_bcd_time, ClockDataResponse, CommDelayRequest, CommDelayResponse, DateTime,
};
use crate::protocol::app_data::{Afn, AppData};
use crate::protocol::frame::Frame;
use crate::request_info::{FrameKey, ReqInfo, UartMessage};

verus! {

/// Answers to the route's requests.
#[derive(Debug, Clone, Copy, PartialEq, Eq)]
pub struct RouteDataRequest;

impl RouteDataRequest {
    /// Answers a clock request with the local time, under the request's sequence number.
    pub fn uart_clock_data_response<T, C>(message: UartMessage<T, C>) -> (m: UartMessage<T, C>)
        ensures
            m.frame.user_data.info_field.spec_seq_num() == message.frame.user_data.info_field.spec_seq_num(),
            exists|t: DateTime| t.valid() && m.frame.user_data.app_data.spec_has(
                Afn::RouteDataRead,
                2,
                Some(spec_bcd_time(t)),
            ),
            m.req_info.mqtt_req_info is None,
    {
        let frame = Frame::new_response(message.frame.get_seq(), None, AppData::from(ClockDataResponse));
        UartMessage::new(ReqInfo::new(&message.frame, None, None), frame)
    }

    /// Answers the route's delay request for a monitored node: the delay for the
    /// waiting monitor request, and the empty answer to send back under the
    /// monitor request's bookkeeping.
    pub fn uart_route_delay_response<T, C>(message: UartMessage<T, C>, init_req_info: ReqInfo<T, C>) -> (r: Result<(u16, UartMessage<T, C>), Error>)
        requires
            init_req_info.frame_key == FrameKey(Afn::RouteDataForward.spec_code(), 1),
        ensures
            ({
                let a = message.frame.user_data.app_data;
                let u = a.spec_units();
                let pre = match a.spec_check_min(9) {
                    Err(e) => Err(e),
                    Ok(_) => a.spec_check(Afn::RouteDataRead, 3, (9 + u[8]) as usize),
                };
                &&& r is Ok <==> pre is Ok
                &&& r matches Err(e) ==> pre == Err::<(), Error>(e)
                &&& r matches Ok(p) ==> p.0 == crate::bytes::le16(u[6], u[7])
                    && p.1.frame.user_data.info_field.spec_seq_num()
                    == message.frame.user_data.info_field.spec_seq_num()
                    && p.1.frame.user_data.app_data.spec_has(Afn::RouteDataRead, 3, Some(seq![0u8]))
            }),
    {
        let seq = message.frame.get_seq();
        let frame = Frame::new_response(seq, None, AppData::from(CommDelayResponse::new(Vec::new())));
        let request = CommDelayRequest::try_from(message.frame.into_app_data())?;
        assert(seq![0u8] + Seq::<u8>::empty() =~= seq![0u8]);
        Ok((request.delay, UartMessage::new(init_req_info, frame)))
    }
}

} // verus!
