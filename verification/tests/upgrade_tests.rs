use plc_service::error::{Error, MqttResponseError};
use plc_service::protocol::app_data::route_data_read::DateTime;
use plc_service::protocol::app_data::route_get::{RunningStatus, RunningStatusResponse, WorkStatus};
use plc_service::service::file_upgrade::{
    upgrade_step, FileUpgradeState, UpgradeEvent, UpgradeNext, UpgradePhase, UpgradeProgress, UpgradeResult,
    UpgradeStatus,
};
use plc_service::service::identify_area::enable_search_request;

fn at(second: u32) -> DateTime {
    DateTime { year: 2024, month: 5, day: 6, hour: 7, minute: 8, second }
}

fn status(meter_status: u8) -> RunningStatusResponse {
    RunningStatusResponse {
        running_status: RunningStatus { error_code: 0, report_event_flag: 0, work_flag: 0, route_finish_flag: 0 },
        total_node_number: 0,
        meter_node_number: 0,
        relay_meter_node_number: 0,
        work_status: WorkStatus { meter_status, area_identify_status: 0, report_event_flag: 0, register_permit: 0, work_status: 0 },
        comm_speed: 0,
        relay_level: [0; 3],
        work_step: [0; 3],
    }
}

fn request(file: Option<Vec<u8>>) -> UpgradeEvent {
    // 30-byte frames leave four file bytes per segment; the module upgrades in 40 s.
    UpgradeEvent::Request { file, flag: 0, max_packet_per_packet: 30, upgrade_wait_time: 40, now: at(1) }
}

#[test]
fn an_unreadable_file_is_refused() {
    let mut s = FileUpgradeState::new();
    let mut p = UpgradeProgress::new();
    let a = upgrade_step(&mut s, &mut p, request(None));
    assert_eq!(a.replies, vec![Err(Error::Response(MqttResponseError::InvalidUpgradeFile))]);
    assert!(matches!(a.next, UpgradeNext::Nothing));
    assert!(!s.upgrading);
}

#[test]
fn a_file_goes_out_segment_by_segment_then_the_module_is_watched() {
    let mut s = FileUpgradeState::new();
    let mut p = UpgradeProgress::new();
    let a = upgrade_step(&mut s, &mut p, request(Some(vec![1, 2, 3, 4, 5, 6])));
    assert_eq!(a.replies, vec![Ok(())]);
    assert!(s.upgrading);
    assert_eq!(s.start_time, at(1));
    match a.next {
        UpgradeNext::Send(r) => {
            assert_eq!(r.segment_num, 2);
            assert_eq!(r.segment_offset, 0);
            assert_eq!(r.file_data, vec![1, 2, 3, 4]);
            assert_eq!((r.file_attr, r.file_command), (0, 0));
        }
        other => panic!("expected a segment, got {:?}", other),
    }
    // A second request while this one runs is answered, then refused.
    let again = upgrade_step(&mut s, &mut p, request(Some(vec![9])));
    assert_eq!(again.replies, vec![Ok(()), Err(Error::Response(MqttResponseError::AlreadyUpgrading))]);
    let a = upgrade_step(&mut s, &mut p, UpgradeEvent::SegmentAnswer { answer: Ok(0), now: at(2) });
    match a.next {
        UpgradeNext::Send(r) => {
            assert_eq!(r.file_data, vec![5, 6]);
            assert_eq!((r.file_attr, r.file_command), (1, 0));
        }
        other => panic!("expected a segment, got {:?}", other),
    }
    let a = upgrade_step(&mut s, &mut p, UpgradeEvent::SegmentAnswer { answer: Ok(1), now: at(3) });
    assert!(matches!(a.next, UpgradeNext::Wait(30)));
    assert_eq!(s.status, UpgradeStatus::Upgrading);
    let a = upgrade_step(&mut s, &mut p, UpgradeEvent::WaitOver { now: at(33) });
    assert!(matches!(a.next, UpgradeNext::PollStatus));
    let mut watched = (s, p.clone());
    let a = upgrade_step(&mut s, &mut p, UpgradeEvent::StatusAnswer { status: Ok(status(2)), now: at(34) });
    assert!(matches!(a.next, UpgradeNext::Wait(10)));
    let a = upgrade_step(&mut s, &mut p, UpgradeEvent::WaitOver { now: at(44) });
    assert!(matches!(a.next, UpgradeNext::PollStatus));
    let a = upgrade_step(&mut s, &mut p, UpgradeEvent::StatusAnswer { status: Ok(status(2)), now: at(45) });
    assert!(matches!(a.next, UpgradeNext::Nothing));
    // Every wait used up: the upgrade is taken as failed.
    assert_eq!(s.upgrade_result, UpgradeResult::OtherError);
    let (ref mut s, ref mut p) = watched;
    let a = upgrade_step(s, p, UpgradeEvent::StatusAnswer { status: Ok(status(0)), now: at(45) });
    assert!(matches!(a.next, UpgradeNext::Nothing));
    assert_eq!(s.status, UpgradeStatus::Finished);
    assert_eq!(s.upgrade_result, UpgradeResult::Success);
    assert_eq!(s.end_time, at(45));
    assert!(!s.upgrading);
    assert_eq!(p.phase, UpgradePhase::Idle);
}

#[test]
fn a_wrong_acknowledgement_ends_the_upgrade() {
    let mut s = FileUpgradeState::new();
    let mut p = UpgradeProgress::new();
    upgrade_step(&mut s, &mut p, request(Some(vec![1, 2, 3, 4, 5])));
    upgrade_step(&mut s, &mut p, UpgradeEvent::SegmentAnswer { answer: Ok(0xffff), now: at(9) });
    assert_eq!(s.upgrade_result, UpgradeResult::FileError);
    assert!(!s.upgrading);
    let mut s = FileUpgradeState::new();
    let mut p = UpgradeProgress::new();
    upgrade_step(&mut s, &mut p, request(Some(vec![1, 2, 3, 4, 5])));
    upgrade_step(&mut s, &mut p, UpgradeEvent::SegmentAnswer { answer: Err(Error::Response(MqttResponseError::Timeout)), now: at(9) });
    assert_eq!(s.upgrade_result, UpgradeResult::TransferFailed);
}

#[test]
fn search_start_times_are_read_with_the_date_pattern() {
    let r = enable_search_request("2024-05-06 07:08:09", "hour", 2, 3, 4).unwrap();
    assert_eq!(r.start_time, DateTime { year: 2024, month: 5, day: 6, hour: 7, minute: 8, second: 9 });
    assert_eq!(r.duration, 120);
    assert_eq!(r.retry_count, 3);
    assert_eq!(r.random_wait_count, 4);
    assert_eq!(enable_search_request("2024-05-06 07:08:09", "min", 2, 3, 4).unwrap().duration, 2);
    assert!(matches!(enable_search_request("2024/05/06", "min", 2, 3, 4), Err(Error::TimeParse(_))));
}
