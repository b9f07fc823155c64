use vrp8::constants::VR_TRANSBUFFER_SIZE;
use vrp8::error::Error;
use vrp8::helper::{Action, Event, Helper, Phase};
use vrp8::transform::Transform;

fn connect(h: &mut Helper) {
    assert!(matches!(h.step(Event::LoopHead { keep_going: true }), Action::WaitScanTick));
    assert!(matches!(h.step(Event::Tick), Action::TryConnect));
    assert!(matches!(h.step(Event::Connected(true)), Action::AnnounceConnection));
    assert!(matches!(h.step(Event::LoopHead { keep_going: true }), Action::WaitFrameTick));
    assert!(matches!(h.step(Event::Tick), Action::ReadMagic));
}

fn upper_memory() -> Vec<u8> {
    let mut b = vec![0u8; VR_TRANSBUFFER_SIZE];
    for i in 0..4 {
        let t = Transform { x: i as i16, y: 0, z: 0, u: 1, v: 0 };
        b[8 * i..8 * i + 8].copy_from_slice(&t.to_bytes());
    }
    b
}

#[test]
fn scan_until_connected() {
    let mut h = Helper::new();
    assert_eq!(h.phase, Phase::ScanIdle);
    assert!(matches!(h.step(Event::LoopHead { keep_going: true }), Action::WaitScanTick));
    assert!(matches!(h.step(Event::Tick), Action::TryConnect));
    assert!(matches!(h.step(Event::Connected(false)), Action::ReportConnectFailure));
    assert_eq!(h.phase, Phase::ScanIdle);
    assert!(matches!(h.step(Event::LoopHead { keep_going: false }), Action::Exit(Error::KilledByCtrlC)));
    assert_eq!(h.phase, Phase::Finished);
    assert!(matches!(h.step(Event::LoopHead { keep_going: true }), Action::Ignore));
}

#[test]
fn frame_with_magic_present() {
    let mut h = Helper::new();
    connect(&mut h);
    let a = h.step(Event::MagicRead(Some(b"omgVRonPICO8!Wow".to_vec())));
    assert!(matches!(a, Action::ReadUpperMemory));
    match h.step(Event::UpperMemoryRead(Some(upper_memory()))) {
        Action::Present(f) => {
            assert_eq!(f.preview.len(), 6);
            assert_eq!(f.preview[3].x, 3);
            assert_eq!(f.drawn.len(), 2);
            assert_eq!(f.gpio.len(), 52);
            assert!(f.gpio[..16].iter().all(|&b| b == 0));
            assert_eq!((f.gpio[18], f.gpio[19]), (150, 0));
        }
        _ => panic!("expected a frame"),
    }
    assert!(matches!(h.step(Event::Written(true)), Action::Proceed));
    assert_eq!(h.phase, Phase::FrameIdle);
    assert!(matches!(h.step(Event::LoopHead { keep_going: false }), Action::Exit(Error::KilledByCtrlC)));
}

#[test]
fn frame_reads_interface_back() {
    let mut h = Helper::new();
    connect(&mut h);
    assert!(matches!(h.step(Event::MagicRead(Some(vec![1u8; 16]))), Action::ReadInterface));
    let mut gpio = vec![0u8; 52];
    gpio[1] = 0b10;
    gpio[2] = 200;
    gpio[14] = 9;
    gpio[16] = 77;
    assert!(matches!(h.step(Event::InterfaceRead(Some(gpio.clone()))), Action::ReadUpperMemory));
    assert_eq!(h.interface.left_rumble, 9);
    match h.step(Event::UpperMemoryRead(Some(upper_memory()))) {
        Action::Present(f) => {
            assert_eq!(&f.gpio[1..16], &gpio[1..16]);
            assert_eq!((f.gpio[16], f.gpio[17]), (0, 0));
        }
        _ => panic!("expected a frame"),
    }
    assert!(matches!(h.step(Event::Written(false)), Action::ReportWriteFailure));
    assert_eq!(h.phase, Phase::ScanIdle);
}

#[test]
fn failed_reads_rescan() {
    let mut h = Helper::new();
    connect(&mut h);
    assert!(matches!(h.step(Event::MagicRead(None)), Action::ReportReadFailure));
    assert_eq!(h.phase, Phase::ScanIdle);
    connect(&mut h);
    assert!(matches!(h.step(Event::MagicRead(Some(vec![]))), Action::ReadInterface));
    assert!(matches!(h.step(Event::InterfaceRead(Some(vec![0u8; 10]))), Action::ReportReadFailure));
    connect(&mut h);
    h.step(Event::MagicRead(Some(b"omgVRonPICO8!Wow".to_vec())));
    assert!(matches!(h.step(Event::UpperMemoryRead(Some(vec![0u8; 100]))), Action::ReportReadFailure));
    assert_eq!(h.phase, Phase::ScanIdle);
}

#[test]
fn unexpected_event_is_ignored() {
    let mut h = Helper::new();
    assert!(matches!(h.step(Event::Tick), Action::Ignore));
    assert!(matches!(h.step(Event::Written(true)), Action::Ignore));
    assert_eq!(h.phase, Phase::ScanIdle);
}
