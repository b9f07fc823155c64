//! The decisions of the helper's main loop, as a state machine.
//!
//! The helper scans for a cartridge once per scan tick until a connection
//! succeeds. Then, once per frame tick, it reads the magic sequence at the
//! start of the GPIO area; while the sequence is still there the cartridge
//! has not been served yet and the interface starts from zero, otherwise the
//! interface is read back from the GPIO area. It then reads the transform
//! buffer from upper memory and draws it, writes the device poses into the
//! interface and writes the interface to the GPIO area. Any failed read or
//! write means that the runtime has gone, and the helper scans again. Before
//! every wait for a tick it checks whether it has been asked to stop.
//!
//! The caller performs each `Action` and reports its outcome as the next
//! `Event`.

use vstd::prelude::*;
use crate::error::Error;
use crate::input::{HMDInterface, GPIO_BLOCK_LEN};
use crate::magic::{is_magic, spec_magic};
use crate::transform::{
    render_items, spec_render, Drawn, SpecDrawn, TransBuffer, Transform,
};
use crate::constants::VR_TRANSBUFFER_SIZE;

verus! {

/// Number of transforms of each frame that the helper prints.
pub const PREVIEW_LEN: usize = 6;

/// Where the helper is in its loop, and what it waits for.
#[derive(Clone, Copy, Debug, PartialEq, Eq, Structural)]
pub enum Phase {
    /// At the head of the scan loop: expects `LoopHead`.
    ScanIdle,
    /// Waiting for a scan tick: expects `Tick`.
    ScanTick,
    /// Attempting a connection: expects `Connected`.
    ScanConnect,
    /// At the head of the frame loop: expects `LoopHead`.
    FrameIdle,
    /// Waiting for a frame tick: expects `Tick`.
    FrameTick,
    /// Reading the magic sequence: expects `MagicRead`.
    FrameMagic,
    /// Reading the interface: expects `InterfaceRead`.
    FrameInterface,
    /// Reading the transform buffer: expects `UpperMemoryRead`.
    FrameUpper,
    /// Writing the interface: expects `Written`.
    FrameWrite,
    /// Stopped for good.
    Finished,
}

/// The outcome of the last action.
pub enum Event {
    /// The head of a loop was reached; `keep_going` is false once Ctrl-C was
    /// pressed.
    LoopHead { keep_going: bool },
    /// The awaited timer tick came.
    Tick,
    /// Whether the connection attempt succeeded.
    Connected(bool),
    /// The bytes at the start of the GPIO area, or `None` if the read failed.
    MagicRead(Option<Vec<u8>>),
    /// The bytes of the GPIO block, or `None` if the read failed.
    InterfaceRead(Option<Vec<u8>>),
    /// The bytes of the transform buffer, or `None` if the read failed.
    UpperMemoryRead(Option<Vec<u8>>),
    /// Whether writing the GPIO block succeeded.
    Written(bool),
}

/// What a frame shows: the transforms to print, the items to draw and the
/// GPIO block to write.
pub struct Frame {
    pub preview: Vec<Transform>,
    pub drawn: Vec<Drawn>,
    pub gpio: Vec<u8>,
}

/// What the caller does next.
pub enum Action {
    /// Wait for the next scan tick, then report `Tick`.
    WaitScanTick,
    /// Try to connect to a runtime, then report `Connected`.
    TryConnect,
    /// Print that connecting failed, then report `LoopHead`.
    ReportConnectFailure,
    /// Print the connection, start the frame timer, then report `LoopHead`.
    AnnounceConnection,
    /// Wait for the next frame tick, then report `Tick`.
    WaitFrameTick,
    /// Read the 16 bytes at the start of the GPIO area, then report `MagicRead`.
    ReadMagic,
    /// Read the GPIO block, then report `InterfaceRead`.
    ReadInterface,
    /// Read the transform buffer, then report `UpperMemoryRead`.
    ReadUpperMemory,
    /// Print the preview, draw the items, write the GPIO block, then
    /// report `Written`.
    Present(Frame),
    /// Print that reading from the runtime failed, then report `LoopHead`.
    ReportReadFailure,
    /// Print that writing to the runtime failed, then report `LoopHead`.
    ReportWriteFailure,
    /// Report `LoopHead`.
    Proceed,
    /// Stop the helper with this error.
    Exit(Error),
    /// The event was not the one expected; nothing changes.
    Ignore,
}

/// An `Event` as a mathematical value.
pub enum SpecEvent {
    LoopHead { keep_going: bool },
    Tick,
    Connected(bool),
    MagicRead(Option<Seq<u8>>),
    InterfaceRead(Option<Seq<u8>>),
    UpperMemoryRead(Option<Seq<u8>>),
    Written(bool),
}

/// A `Frame` as a mathematical value.
pub struct SpecFrame {
    pub preview: Seq<Transform>,
    pub drawn: Seq<SpecDrawn>,
    pub gpio: Seq<u8>,
}

/// An `Action` as a mathematical value.
pub enum SpecAction {
    WaitScanTick,
    TryConnect,
    ReportConnectFailure,
    AnnounceConnection,
    WaitFrameTick,
    ReadMagic,
    ReadInterface,
    ReadUpperMemory,
    Present(SpecFrame),
    ReportReadFailure,
    ReportWriteFailure,
    Proceed,
    Exit(Error),
    Ignore,
}

pub open spec fn bytes_view(b: Option<Vec<u8>>) -> Option<Seq<u8>> {
    match b {
        Some(v) => Some(v@),
        None => None,
    }
}

impl View for Event {
    type V = SpecEvent;

    open spec fn view(&self) -> SpecEvent {
        match *self {
            Event::LoopHead { keep_going } => SpecEvent::LoopHead { keep_going },
            Event::Tick => SpecEvent::Tick,
            Event::Connected(ok) => SpecEvent::Connected(ok),
            Event::MagicRead(b) => SpecEvent::MagicRead(bytes_view(b)),
            Event::InterfaceRead(b) => SpecEvent::InterfaceRead(bytes_view(b)),
            Event::UpperMemoryRead(b) => SpecEvent::UpperMemoryRead(bytes_view(b)),
            Event::Written(ok) => SpecEvent::Written(ok),
        }
    }
}

impl View for Frame {
    type V = SpecFrame;

    open spec fn view(&self) -> SpecFrame {
        SpecFrame {
            preview: self.preview@,
            drawn: self.drawn@.map_values(|d: Drawn| d@),
            gpio: self.gpio@,
        }
    }
}

impl View for Action {
    type V = SpecAction;

    open spec fn view(&self) -> SpecAction {
        match *self {
            Action::WaitScanTick => SpecAction::WaitScanTick,
            Action::TryConnect => SpecAction::TryConnect,
            Action::ReportConnectFailure => SpecAction::ReportConnectFailure,
            Action::AnnounceConnection => SpecAction::AnnounceConnection,
            Action::WaitFrameTick => SpecAction::WaitFrameTick,
            Action::ReadMagic => SpecAction::ReadMagic,
            Action::ReadInterface => SpecAction::ReadInterface,
            Action::ReadUpperMemory => SpecAction::ReadUpperMemory,
            Action::Present(f) => SpecAction::Present(f@),
            Action::ReportReadFailure => SpecAction::ReportReadFailure,
            Action::ReportWriteFailure => SpecAction::ReportWriteFailure,
            Action::Proceed => SpecAction::Proceed,
            Action::Exit(e) => SpecAction::Exit(e),
            Action::Ignore => SpecAction::Ignore,
        }
    }
}

/// The helper's state: where it is, and the interface it is building for
/// the current frame.
#[derive(Clone, Copy, Debug)]
pub struct Helper {
    pub phase: Phase,
    pub interface: HMDInterface,
}

/// The frame that a transform buffer of bytes `b` and the interface `iface`
/// give: the first transforms, what the buffer draws, and the GPIO
/// block of `iface`.
pub open spec fn spec_frame(b: Seq<u8>, iface: HMDInterface) -> SpecFrame {
    let ts = TransBuffer::spec_transforms(b);
    SpecFrame {
        preview: ts.take(PREVIEW_LEN as int),
        drawn: spec_render(ts),
        gpio: iface.spec_gpio(),
    }
}

impl Helper {
    /// The helper at the start: about to scan.
    pub open spec fn spec_new() -> Helper {
        Helper { phase: Phase::ScanIdle, interface: HMDInterface::spec_zero() }
    }

    /// This helper in another phase.
    pub open spec fn at(self, phase: Phase) -> Helper {
        Helper { phase, ..self }
    }

    /// The state and action after `e`.
    pub open spec fn spec_step(self, e: SpecEvent) -> (Helper, SpecAction) {
        match (self.phase, e) {
            (Phase::ScanIdle, SpecEvent::LoopHead { keep_going }) => if keep_going {
                (self.at(Phase::ScanTick), SpecAction::WaitScanTick)
            } else {
                (self.at(Phase::Finished), SpecAction::Exit(Error::KilledByCtrlC))
            },
            (Phase::ScanTick, SpecEvent::Tick) => (
                self.at(Phase::ScanConnect),
                SpecAction::TryConnect,
            ),
            (Phase::ScanConnect, SpecEvent::Connected(ok)) => if ok {
                (self.at(Phase::FrameIdle), SpecAction::AnnounceConnection)
            } else {
                (self.at(Phase::ScanIdle), SpecAction::ReportConnectFailure)
            },
            (Phase::FrameIdle, SpecEvent::LoopHead { keep_going }) => if keep_going {
                (self.at(Phase::FrameTick), SpecAction::WaitFrameTick)
            } else {
                (self.at(Phase::Finished), SpecAction::Exit(Error::KilledByCtrlC))
            },
            (Phase::FrameTick, SpecEvent::Tick) => (
                self.at(Phase::FrameMagic),
                SpecAction::ReadMagic,
            ),
            (Phase::FrameMagic, SpecEvent::MagicRead(r)) => match r {
                None => (self.at(Phase::ScanIdle), SpecAction::ReportReadFailure),
                Some(b) => if b == spec_magic() {
                    (
                        Helper { phase: Phase::FrameUpper, interface: HMDInterface::spec_zero() },
                        SpecAction::ReadUpperMemory,
                    )
                } else {
                    (self.at(Phase::FrameInterface), SpecAction::ReadInterface)
                },
            },
            (Phase::FrameInterface, SpecEvent::InterfaceRead(r)) => match r {
                Some(b) => if b.len() == GPIO_BLOCK_LEN {
                    (
                        Helper {
                            phase: Phase::FrameUpper,
                            interface: HMDInterface::spec_from_gpio(b),
                        },
                        SpecAction::ReadUpperMemory,
                    )
                } else {
                    (self.at(Phase::ScanIdle), SpecAction::ReportReadFailure)
                },
                None => (self.at(Phase::ScanIdle), SpecAction::ReportReadFailure),
            },
            (Phase::FrameUpper, SpecEvent::UpperMemoryRead(r)) => match r {
                Some(b) => if b.len() == VR_TRANSBUFFER_SIZE {
                    let iface = self.interface.spec_with_placeholder_poses();
                    (
                        Helper { phase: Phase::FrameWrite, interface: iface },
                        SpecAction::Present(spec_frame(b, iface)),
                    )
                } else {
                    (self.at(Phase::ScanIdle), SpecAction::ReportReadFailure)
                },
                None => (self.at(Phase::ScanIdle), SpecAction::ReportReadFailure),
            },
            (Phase::FrameWrite, SpecEvent::Written(ok)) => if ok {
                (self.at(Phase::FrameIdle), SpecAction::Proceed)
            } else {
                (self.at(Phase::ScanIdle), SpecAction::ReportWriteFailure)
            },
            _ => (self, SpecAction::Ignore),
        }
    }

    /// The helper at the start: about to scan, with a zero interface.
    pub fn new() -> (r: Helper)
        ensures
            r == Helper::spec_new(),
    {
        Helper { phase: Phase::ScanIdle, interface: HMDInterface::default() }
    }

    /// Takes the outcome of the last action and gives the next action.
    pub fn step(&mut self, event: Event) -> (action: Action)
        ensures
            (*final(self), action@) == old(self).spec_step(event@),
    {
        match (self.phase, event) {
            (Phase::ScanIdle, Event::LoopHead { keep_going }) => {
                if keep_going {
                    self.phase = Phase::ScanTick;
                    Action::WaitScanTick
                } else {
                    self.phase = Phase::Finished;
                    Action::Exit(Error::KilledByCtrlC)
                }
            },
            (Phase::ScanTick, Event::Tick) => {
                self.phase = Phase::ScanConnect;
                Action::TryConnect
            },
            (Phase::ScanConnect, Event::Connected(ok)) => {
                if ok {
                    self.phase = Phase::FrameIdle;
                    Action::AnnounceConnection
                } else {
                    self.phase = Phase::ScanIdle;
                    Action::ReportConnectFailure
                }
            },
            (Phase::FrameIdle, Event::LoopHead { keep_going }) => {
                if keep_going {
                    self.phase = Phase::FrameTick;
                    Action::WaitFrameTick
                } else {
                    self.phase = Phase::Finished;
                    Action::Exit(Error::KilledByCtrlC)
                }
            },
            (Phase::FrameTick, Event::Tick) => {
                self.phase = Phase::FrameMagic;
                Action::ReadMagic
            },
            (Phase::FrameMagic, Event::MagicRead(r)) => {
                match r {
                    None => {
                        self.phase = Phase::ScanIdle;
                        Action::ReportReadFailure
                    },
                    Some(b) => {
                        if is_magic(b.as_slice()) {
                            self.phase = Phase::FrameUpper;
                            self.interface = HMDInterface::default();
                            Action::ReadUpperMemory
                        } else {
                            self.phase = Phase::FrameInterface;
                            Action::ReadInterface
                        }
                    },
                }
            },
            (Phase::FrameInterface, Event::InterfaceRead(r)) => {
                match r {
                    None => {
                        self.phase = Phase::ScanIdle;
                        Action::ReportReadFailure
                    },
                    Some(b) => {
                        match HMDInterface::from_gpio_bytes(b.as_slice()) {
                            Some(iface) => {
                                self.phase = Phase::FrameUpper;
                                self.interface = iface;
                                Action::ReadUpperMemory
                            },
                            None => {
                                self.phase = Phase::ScanIdle;
                                Action::ReportReadFailure
                            },
                        }
                    },
                }
            },
            (Phase::FrameUpper, Event::UpperMemoryRead(r)) => {
                match r {
                    None => {
                        self.phase = Phase::ScanIdle;
                        Action::ReportReadFailure
                    },
                    Some(b) => {
                        match TransBuffer::from_bytes(b.as_slice()) {
                            Some(buffer) => {
                                let mut preview: Vec<Transform> = Vec::new();
                                for i in 0..PREVIEW_LEN
                                    invariant
                                        buffer.transforms@.len() == crate::constants::VR_MAX_TRANSFORMS,
                                        preview@ == buffer.transforms@.take(i as int),
                                {
                                    preview.push(buffer.transforms[i]);
                                    assert(buffer.transforms@.take(i + 1) =~= buffer.transforms@.take(
                                        i as int,
                                    ).push(buffer.transforms@[i as int]));
                                }
                                let drawn = render_items(buffer);
                                let mut iface = self.interface;
                                iface.apply_placeholder_poses();
                                let gpio = iface.to_gpio_bytes();
                                self.phase = Phase::FrameWrite;
                                self.interface = iface;
                                Action::Present(Frame { preview, drawn, gpio })
                            },
                            None => {
                                self.phase = Phase::ScanIdle;
                                Action::ReportReadFailure
                            },
                        }
                    },
                }
            },
            (Phase::FrameWrite, Event::Written(ok)) => {
                if ok {
                    self.phase = Phase::FrameIdle;
                    Action::Proceed
                } else {
                    self.phase = Phase::ScanIdle;
                    Action::ReportWriteFailure
                }
            },
            _ => Action::Ignore,
        }
    }
}

/// The helper stops only at the head of a loop, when asked to, and then
/// with `KilledByCtrlC`; at the head of a loop it always stops when asked to.
pub proof fn lemma_exit_only_when_asked(h: Helper, e: SpecEvent)
    ensures
        h.spec_step(e).1 is Exit ==> e == (SpecEvent::LoopHead { keep_going: false }) && (
        h.phase == Phase::ScanIdle || h.phase == Phase::FrameIdle),
        (h.phase == Phase::ScanIdle || h.phase == Phase::FrameIdle) && e == (SpecEvent::LoopHead {
            keep_going: false,
        }) ==> h.spec_step(e) == (h.at(Phase::Finished), SpecAction::Exit(Error::KilledByCtrlC)),
{
}

/// Once stopped, the helper stays stopped and does nothing.
pub proof fn lemma_finished_is_final(h: Helper, e: SpecEvent)
    requires
        h.phase == Phase::Finished,
    ensures
        h.spec_step(e) == (h, SpecAction::Ignore),
{
}

/// A failed read or write in a frame sends the helper back to scanning.
pub proof fn lemma_failure_rescans(h: Helper, e: SpecEvent)
    requires
        e == SpecEvent::MagicRead(None) || e == SpecEvent::InterfaceRead(None)
            || e == SpecEvent::UpperMemoryRead(None) || e == SpecEvent::Written(false),
        h.spec_step(e).1 !is Ignore,
    ensures
        h.spec_step(e).0.phase == Phase::ScanIdle,
{
}

/// Every frame writes a GPIO block that decodes to the helper's interface,
/// and that interface carries the device poses.
#[verifier::spinoff_prover]
#[verifier::rlimit(60)]
pub proof fn lemma_frame_writes_interface(h: Helper, e: SpecEvent)
    requires
        h.spec_step(e).1 is Present,
    ensures
        ({
            let (next, a) = h.spec_step(e);
            let f = a->Present_0;
            &&& f.gpio.len() == GPIO_BLOCK_LEN
            &&& HMDInterface::spec_from_gpio(f.gpio) == next.interface
            &&& next.interface == next.interface.spec_with_placeholder_poses()
            &&& f.preview.len() == PREVIEW_LEN
        }),
{
    let (next, a) = h.spec_step(e);
    crate::input::lemma_gpio_roundtrip(next.interface);
}

/// A frame previews the first six transforms of the buffer as read: the
/// `i`-th is the one that bytes `8 * i .. 8 * i + 8` hold.
#[verifier::spinoff_prover]
#[verifier::rlimit(60)]
pub proof fn lemma_frame_preview(h: Helper, b: Seq<u8>, i: int)
    requires
        h.phase == Phase::FrameUpper,
        b.len() == VR_TRANSBUFFER_SIZE,
        0 <= i < 6,
    ensures
        ({
            let (h2, a) = h.spec_step(SpecEvent::UpperMemoryRead(Some(b)));
            &&& a is Present
            &&& a->Present_0.preview.len() == 6
            &&& a->Present_0.preview[i] == Transform::spec_from_bytes(b, 8 * i)
        }),
{
}

/// While the magic sequence is still in the GPIO area, the frame starts from
/// the zero interface: the block that the frame writes holds no pressed
/// button, zero triggers, grips and sticks, and no rumble.
#[verifier::spinoff_prover]
#[verifier::rlimit(60)]
pub proof fn lemma_magic_starts_from_zero(h: Helper, b: Seq<u8>)
    requires
        h.phase == Phase::FrameMagic,
        b.len() == VR_TRANSBUFFER_SIZE,
    ensures
        ({
            let (h1, a1) = h.spec_step(SpecEvent::MagicRead(Some(spec_magic())));
            let (h2, a2) = h1.spec_step(SpecEvent::UpperMemoryRead(Some(b)));
            &&& a1 == SpecAction::ReadUpperMemory
            &&& a2 is Present
            &&& a2->Present_0.gpio.subrange(0, 16) == Seq::new(16, |i: int| 0u8)
        }),
{
    let (h1, a1) = h.spec_step(SpecEvent::MagicRead(Some(spec_magic())));
    let (h2, a2) = h1.spec_step(SpecEvent::UpperMemoryRead(Some(b)));
    crate::input::lemma_gpio_layout(h2.interface);
    assert(a2->Present_0.gpio.subrange(0, 16) =~= Seq::new(16, |i: int| 0u8));
}

/// What the cartridge left in the GPIO block (buttons, triggers, grips,
/// sticks and rumble) is written back unchanged by the frame that read it.
#[verifier::spinoff_prover]
#[verifier::rlimit(60)]
pub proof fn lemma_interface_passes_through(h: Helper, g: Seq<u8>, b: Seq<u8>)
    requires
        h.phase == Phase::FrameInterface,
        g.len() == GPIO_BLOCK_LEN,
        b.len() == VR_TRANSBUFFER_SIZE,
    ensures
        ({
            let (h1, a1) = h.spec_step(SpecEvent::InterfaceRead(Some(g)));
            let (h2, a2) = h1.spec_step(SpecEvent::UpperMemoryRead(Some(b)));
            &&& a1 == SpecAction::ReadUpperMemory
            &&& a2 is Present
            &&& a2->Present_0.gpio.subrange(1, 16) == g.subrange(1, 16)
        }),
{
    let (h1, a1) = h.spec_step(SpecEvent::InterfaceRead(Some(g)));
    let (h2, a2) = h1.spec_step(SpecEvent::UpperMemoryRead(Some(b)));
    crate::input::lemma_gpio_layout(h2.interface);
    crate::bytes::lemma_le_i16_roundtrip(g[6], g[7]);
    crate::bytes::lemma_le_i16_roundtrip(g[8], g[9]);
    crate::bytes::lemma_le_i16_roundtrip(g[10], g[11]);
    crate::bytes::lemma_le_i16_roundtrip(g[12], g[13]);
    assert(a2->Present_0.gpio.subrange(1, 16) =~= g.subrange(1, 16));
}

} // verus!
