use vstd::prelude::*;

use crate::protocol::addresses::{BROADCAST, MAIN_WRC, SUB_WRC};
use crate::protocol::codec::{
    FrameId, FrameInner, RxFrame, SpecFrame, SpecRxFrame, SpecTxFrame, TxFrame,
};
use crate::protocol::commands::{
    empty_payload, CommandC4Reply, CommandC4Request, CommandC5Request, CommandC5Response,
    CommandD1, CommandD1Response,
};

verus! {

/// The reply the sub WRC owes for a received frame: it acknowledges the two
/// handover commands the main WRC addresses to it, and ignores everything
/// else, a malformed handover payload included.
pub open spec fn spec_sub_wrc_step(f: SpecRxFrame) -> Option<SpecTxFrame> {
    match f {
        SpecRxFrame::Long(frame) => {
            if frame.src == MAIN_WRC && frame.dst == SUB_WRC && frame.cmd == CommandC4Request::ID {
                Some(
                    SpecTxFrame::Long(
                        SpecFrame {
                            src: SUB_WRC,
                            dst: MAIN_WRC,
                            cmd: CommandC4Reply::ID,
                            data: empty_payload(),
                        },
                    ),
                )
            } else if frame.src == MAIN_WRC && frame.dst == SUB_WRC && frame.cmd
                == CommandC5Request::ID {
                if frame.data[0] == 0x22 {
                    Some(
                        SpecTxFrame::Long(
                            SpecFrame {
                                src: SUB_WRC,
                                dst: MAIN_WRC,
                                cmd: CommandC5Response::ID,
                                data: seq![0x22u8, 0u8, 0u8, 0u8, 0u8, 0u8, 0u8, 0u8],
                            },
                        ),
                    )
                } else {
                    None
                }
            } else {
                None
            }
        },
        SpecRxFrame::Short(_) => None,
        SpecRxFrame::Corrupted(_) => None,
    }
}

/// One reactive step of the sub WRC.
pub fn sub_wrc_step(frame: &RxFrame) -> (r: Option<TxFrame>)
    ensures
        match r {
            Some(t) => spec_sub_wrc_step(frame@) == Some(t@),
            None => spec_sub_wrc_step(frame@) is None,
        },
{
    match frame {
        RxFrame::Long(f) => {
            if f.id.src == MAIN_WRC && f.id.dst == SUB_WRC && f.id.cmd == CommandC4Request::ID {
                let ack = CommandC4Reply::new();
                let reply = FrameInner::<8> {
                    id: FrameId { src: SUB_WRC, dst: MAIN_WRC, cmd: CommandC4Reply::ID },
                    data: ack.pack(),
                };
                Some(TxFrame::Long(reply))
            } else if f.id.src == MAIN_WRC && f.id.dst == SUB_WRC && f.id.cmd
                == CommandC5Request::ID {
                if CommandC5Request::unpack(&f.data).is_err() {
                    return None;
                }
                let ack = CommandC5Response::default();
                let reply = FrameInner::<8> {
                    id: FrameId { src: SUB_WRC, dst: MAIN_WRC, cmd: CommandC5Response::ID },
                    data: ack.pack(),
                };
                proof {
                    assert(ack.spec_pack() =~= seq![0x22u8, 0u8, 0u8, 0u8, 0u8, 0u8, 0u8, 0u8]);
                }
                Some(TxFrame::Long(reply))
            } else {
                None
            }
        },
        RxFrame::Short(_) => None,
        RxFrame::Corrupted(_) => None,
    }
}

/// The reset tool's decision: answer an end-of-phase broadcast from the sub
/// WRC's address, which forces the main WRC back to discovery.
pub open spec fn spec_reset_step(f: SpecRxFrame) -> Option<SpecTxFrame> {
    let reply = SpecTxFrame::Long(
        SpecFrame { src: SUB_WRC, dst: MAIN_WRC, cmd: CommandD1::ID, data: empty_payload() },
    );
    match f {
        SpecRxFrame::Long(frame) => {
            if frame.src == MAIN_WRC && frame.dst == BROADCAST && frame.cmd == CommandD1::ID {
                Some(reply)
            } else {
                None
            }
        },
        SpecRxFrame::Short(frame) => {
            if frame.src == MAIN_WRC && frame.dst == BROADCAST && frame.cmd == CommandD1::ID {
                Some(reply)
            } else {
                None
            }
        },
        SpecRxFrame::Corrupted(_) => None,
    }
}

/// Wait for the end-of-phase broadcast and answer it.
pub fn reset_step(frame: &RxFrame) -> (r: Option<TxFrame>)
    ensures
        match r {
            Some(t) => spec_reset_step(frame@) == Some(t@),
            None => spec_reset_step(frame@) is None,
        },
{
    let id = match frame.id() {
        Some(id) => id,
        None => {
            return None;
        },
    };
    if id.src == MAIN_WRC && id.dst == BROADCAST && id.cmd == CommandD1::ID {
        let ack = CommandD1Response::default();
        let reply = FrameInner::<8> {
            id: FrameId { src: SUB_WRC, dst: MAIN_WRC, cmd: CommandD1::ID },
            data: ack.pack(),
        };
        Some(TxFrame::Long(reply))
    } else {
        None
    }
}

} // verus!
