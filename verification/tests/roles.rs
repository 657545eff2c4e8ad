use wrcbus::iuemu::{Address, IndoorUnit};
use wrcbus::mainwrc::{MainWrc, Phase};
use wrcbus::protocol::codec::{LongFrame, RxFrame, ShortFrame, TxFrame};
use wrcbus::protocol::iu::IndoorUnitMode;
use wrcbus::subwrc::{reset_step, sub_wrc_step};

fn assigned_unit(value: u8) -> IndoorUnit {
    let mut unit = IndoorUnit::new(0);
    unit.address = Address::Assigned(value);
    unit
}

#[test]
fn discovery_broadcast_then_assignment_leaves_the_unit_assigned() {
    let mut unit = IndoorUnit::new(0);

    // DiscoverUnassigned: the unit picks the fresh candidate and says hello
    let broadcast = RxFrame::Long(LongFrame::new(0x84, 0xeb, 0xfb, [0x01, 0, 0, 0, 0, 0, 0, 0]));
    let reply = unit.handle_frame(&broadcast, 0x17).expect("a hello");
    assert_eq!(unit.address, Address::Temporary(0x17));
    assert_eq!(reply.delay_ms, 0x17 as u64 * 100);
    assert_eq!(
        reply.frame,
        TxFrame::Short(ShortFrame::new(0x17, 0x84, 0xfc, [0x00]))
    );

    // the targeted assignment: the unit holds exactly the granted value
    // and acknowledges with it
    let assign = RxFrame::Short(ShortFrame::new(0x84, 0x17, 0xfd, [0x05]));
    let ack = unit.handle_frame(&assign, 0x99).expect("an acknowledgement");
    assert_eq!(unit.address, Address::Assigned(0x05));
    assert_eq!(ack.delay_ms, 0);
    assert_eq!(
        ack.frame,
        TxFrame::Short(ShortFrame::new(0x17, 0x84, 0xfe, [0x05]))
    );
}

#[test]
fn assigned_units_ignore_discover_unassigned() {
    let mut unit = assigned_unit(0x05);
    let broadcast = RxFrame::Long(LongFrame::new(0x84, 0xeb, 0xfb, [0x01, 0, 0, 0, 0, 0, 0, 0]));
    assert!(unit.handle_frame(&broadcast, 0x17).is_none());
    assert_eq!(unit.address, Address::Assigned(0x05));

    // TrackingStart throws the assignment away
    let restart = RxFrame::Long(LongFrame::new(0x84, 0xeb, 0xfb, [0x02, 0, 0, 0, 0, 0, 0, 0]));
    let hello = unit.handle_frame(&restart, 0x31).expect("a hello");
    assert_eq!(unit.address, Address::Temporary(0x31));
    assert_eq!(
        hello.frame,
        TxFrame::Short(ShortFrame::new(0x31, 0x84, 0xfc, [0x00]))
    );
}

#[test]
fn change_settings_updates_state_and_echoes_on_the_reply_id() {
    // a unit assigned 5 listens on 0x20 + 5 + 10 = 0x2f
    let mut unit = assigned_unit(0x05);
    let payload = [0xaa, 0xbb, 0x75, 0x54, 0x70, 1, 2, 3];
    let request = RxFrame::Long(LongFrame::new(0x84, 0x2f, 0xa0, payload));
    let reply = unit.handle_frame(&request, 0).expect("an echo");

    assert_eq!(unit.state.setpoint_temp, 21);
    assert!(unit.state.s_plasma_ion);
    assert!(unit.state.humidifier);
    assert_eq!(unit.state.mode, IndoorUnitMode::Heat);
    assert!(unit.state.power);
    // reset_clean_filter was clear, so the flag keeps its initial value
    assert!(unit.state.clean_filter);

    assert_eq!(reply.frame, TxFrame::Long(LongFrame::new(0x2f, 0x84, 0x50, payload)));
}

#[test]
fn malformed_change_settings_is_skipped_without_a_reply() {
    let mut unit = assigned_unit(0x05);
    let before = unit.state;
    // the low mode bits name no mode
    let request = RxFrame::Long(LongFrame::new(0x84, 0x2f, 0xa0, [0, 0, 0, 5, 0, 0, 0, 0]));
    assert!(unit.handle_frame(&request, 0).is_none());
    assert_eq!(unit.state, before);
}

#[test]
fn read_status_requests_report_the_local_state() {
    let mut unit = assigned_unit(0x05);

    let req52 = RxFrame::Long(LongFrame::new(0x84, 0x2f, 0x52, [0; 8]));
    let reply = unit.handle_frame(&req52, 0).expect("the first snapshot");
    assert_eq!(
        reply.frame,
        TxFrame::Long(LongFrame::new(
            0x2f,
            0x84,
            0x52,
            [0x4e, 0x4b, 0x5f, 0x00, 0xf1, 0xc1, 0xff, 0x49]
        ))
    );

    let req54 = RxFrame::Long(LongFrame::new(0x84, 0x2f, 0x54, [0; 8]));
    let reply = unit.handle_frame(&req54, 0).expect("the third snapshot");
    assert_eq!(
        reply.frame,
        TxFrame::Long(LongFrame::new(0x2f, 0x84, 0x54, [0xff, 0, 0, 0, 0, 0, 0, 0]))
    );

    let req55 = RxFrame::Long(LongFrame::new(0x84, 0x2f, 0x55, [0; 8]));
    let reply = unit.handle_frame(&req55, 0).expect("the fourth snapshot");
    assert_eq!(
        reply.frame,
        TxFrame::Long(LongFrame::new(0x2f, 0x84, 0x55, [0x11, 0, 0, 0, 0, 0, 0, 0]))
    );

    // a frame addressed to another unit is ignored
    let other = RxFrame::Long(LongFrame::new(0x84, 0x36, 0x52, [0; 8]));
    assert!(unit.handle_frame(&other, 0).is_none());
}

#[test]
fn controller_reaches_normal_operation_and_polls_in_fixed_order() {
    let mut wrc = MainWrc::new();
    assert_eq!(wrc.phase, Phase::Discovery);

    // discovery: broadcast, one hello gathered, one address granted
    let kickoff = wrc.begin_discovery();
    assert_eq!(
        kickoff.frame,
        TxFrame::Long(LongFrame::new(0x84, 0xeb, 0xfb, [0x02, 0, 0, 0, 0, 0, 0, 0]))
    );
    assert_eq!(kickoff.delay_ms, 8000);

    let hello = RxFrame::Short(ShortFrame::new(0x42, 0x84, 0xfc, [0x00]));
    assert!(!wrc.on_frame(&hello));

    let grants = wrc.finish_discovery();
    assert_eq!(wrc.phase, Phase::Enumeration);
    assert_eq!(grants.len(), 2);
    assert_eq!(
        grants[0].frame,
        TxFrame::Short(ShortFrame::new(0x84, 0x42, 0xfd, [0x00]))
    );
    assert_eq!(
        grants[1].frame,
        TxFrame::Short(ShortFrame::new(0x84, 0xeb, 0xf9, [0x00]))
    );

    // enumeration: one peripheral answers from its bus address, and the
    // secondary controller acknowledges the handover
    let unit_answer = RxFrame::Long(LongFrame::new(
        0x2a,
        0x84,
        0x52,
        [0x4e, 0x4b, 0x5f, 0x00, 0xf1, 0xc1, 0xff, 0x49],
    ));
    assert!(!wrc.on_frame(&unit_answer));
    let sub_answer = RxFrame::Long(LongFrame::new(0x85, 0x84, 0xc4, [0; 8]));
    assert!(!wrc.on_frame(&sub_answer));

    let pass = wrc.enumeration_pass();
    assert_eq!(wrc.phase, Phase::NormalOperation);
    assert_eq!(pass.len(), 136);
    assert_eq!(
        pass[0].frame,
        TxFrame::Long(LongFrame::new(0x84, 0x20, 0x52, [0; 8]))
    );

    // normal operation: the four read kinds to the one known peripheral,
    // in one fixed repeating order
    let cycle = wrc.normal_cycle();
    assert_eq!(cycle.len(), 16);
    for (block, kind) in [(0usize, 0x52u8), (1, 0x53), (2, 0x54), (3, 0x55)] {
        assert_eq!(
            cycle[block * 4].frame,
            TxFrame::Long(LongFrame::new(0x84, 0x2a, kind, [0; 8]))
        );
    }
    // each block ends with the end-of-phase broadcast
    assert_eq!(
        cycle[3].frame,
        TxFrame::Long(LongFrame::new(0x84, 0xad, 0xd1, [0x01, 0, 0, 0, 0, 0, 0, 0]))
    );
}

#[test]
fn sub_wrc_answer_to_end_of_phase_forces_a_reset() {
    let mut wrc = MainWrc::new();
    wrc.begin_discovery();
    wrc.finish_discovery();
    wrc.enumeration_pass();
    assert_eq!(wrc.phase, Phase::NormalOperation);

    let answer = RxFrame::Long(LongFrame::new(0x85, 0x84, 0xd1, [0; 8]));
    assert!(wrc.on_frame(&answer));
    assert_eq!(wrc.phase, Phase::Discovery);
}

#[test]
fn sub_wrc_acknowledges_both_handover_commands() {
    let c4 = RxFrame::Long(LongFrame::new(0x84, 0x85, 0xc4, [0x01, 1, 0, 0, 0x2a, 0, 0, 0x44]));
    assert_eq!(
        sub_wrc_step(&c4),
        Some(TxFrame::Long(LongFrame::new(0x85, 0x84, 0xc4, [0; 8])))
    );

    let c5 = RxFrame::Long(LongFrame::new(0x84, 0x85, 0xc5, [0x22, 0x80, 0, 0, 0, 0, 0, 0]));
    assert_eq!(
        sub_wrc_step(&c5),
        Some(TxFrame::Long(LongFrame::new(
            0x85,
            0x84,
            0xc5,
            [0x22, 0, 0, 0, 0, 0, 0, 0]
        )))
    );

    // a malformed handover payload is skipped, not answered
    let bad_c5 = RxFrame::Long(LongFrame::new(0x84, 0x85, 0xc5, [0x21, 0, 0, 0, 0, 0, 0, 0]));
    assert!(sub_wrc_step(&bad_c5).is_none());

    // traffic for the peripherals is ignored
    let poll = RxFrame::Long(LongFrame::new(0x84, 0x20, 0x52, [0; 8]));
    assert!(sub_wrc_step(&poll).is_none());
}

#[test]
fn reset_tool_answers_the_end_of_phase_broadcast() {
    let end = RxFrame::Long(LongFrame::new(0x84, 0xad, 0xd1, [0x01, 0, 0, 0, 0, 0, 0, 0]));
    assert_eq!(
        reset_step(&end),
        Some(TxFrame::Long(LongFrame::new(0x85, 0x84, 0xd1, [0; 8])))
    );

    let other = RxFrame::Long(LongFrame::new(0x84, 0x85, 0xc4, [0; 8]));
    assert!(reset_step(&other).is_none());
}
