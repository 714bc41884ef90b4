use phytium_mci::mci::mci_evt::{evt_index, FSdifEvtType, MCIEvtHandlers};
use phytium_mci::mci::mci_intr::{
    fsdif_irq_clear_writes, fsdif_irq_status_writes, MciRegWrite, MciStatusReg,
};

fn on_cmd(_arg: usize, _events: u32, _dmac: u32) {}

type Handler = fn(usize, u32, u32);

#[test]
fn irq_status_writes_without_status() {
    let w = fsdif_irq_status_writes(0x8000_0000, 0x1000);
    assert_eq!(
        w,
        vec![
            MciRegWrite { reg: MciStatusReg::RawInts, value: 0x8000_0000 },
            MciRegWrite { reg: MciStatusReg::DmacStatus, value: 0x1000 },
        ]
    );
}

#[test]
fn irq_status_writes_when_handled() {
    let w = fsdif_irq_status_writes(0x4, 0);
    assert_eq!(w, vec![MciRegWrite { reg: MciStatusReg::IrqTemp, value: 0 }]);
    let w = fsdif_irq_clear_writes(0x4, 0x2);
    assert_eq!(
        w,
        vec![
            MciRegWrite { reg: MciStatusReg::RawInts, value: 0x4 },
            MciRegWrite { reg: MciStatusReg::DmacStatus, value: 0x2 },
        ]
    );
}

#[test]
fn event_handler_table() {
    let mut t: MCIEvtHandlers<Handler, usize> = MCIEvtHandlers::new();
    for e in [
        FSdifEvtType::CardDetected,
        FSdifEvtType::CmdDone,
        FSdifEvtType::DataDone,
        FSdifEvtType::SdioIrq,
        FSdifEvtType::ErrOccured,
    ] {
        assert!(t.evt_handler(e).is_none() && t.evt_args(e).is_none());
    }
    t.register_event_handler(FSdifEvtType::CmdDone, Some(on_cmd as Handler), 0x40);
    assert!(t.evt_handler(FSdifEvtType::CmdDone).is_some());
    assert_eq!(t.evt_args(FSdifEvtType::CmdDone), Some(0x40));
    assert!(t.evt_handler(FSdifEvtType::DataDone).is_none());
    t.register_event_handler(FSdifEvtType::CmdDone, None, 0x80);
    assert!(t.evt_handler(FSdifEvtType::CmdDone).is_none());
    assert_eq!(t.evt_args(FSdifEvtType::CmdDone), Some(0x80));
    assert_eq!(evt_index(FSdifEvtType::ErrOccured), 4);
}
