use vstd::prelude::*;
use crate::params::{Access, Format, Mode, Stream};

verus! {

/// Soft resampling toggle handed to the parameter call (always 1).
pub const SOFT_RESAMPLE: i32 = 1;

/// Latency asked of the device, in microseconds.
pub const LATENCY_US: u32 = 500000;

/// Flag handed to the recovery call: non-zero keeps it from printing
/// diagnostics.
pub const RECOVER_SILENT: i32 = 1;

/// Where a handle stands in its life.
#[derive(Copy, Clone, PartialEq, Eq, Debug, Structural)]
pub enum Phase {
    /// The stream is still to be acquired.
    Acquiring,
    /// Acquired; the hardware parameters are still to be set.
    Configuring,
    /// Configured; the stream is still to be prepared.
    Preparing,
    /// Ready for a transfer.
    Ready,
    /// A buffer was handed to the transfer call, whose result is awaited.
    Writing,
    /// A transfer failed and the recovery call's result is awaited.
    Recovering,
    /// A step failed with this status; the handle is unusable.
    Failed(isize),
    /// The stream was released.
    Closed,
}

/// A call that the handle asks the sound server to make while it opens.
#[derive(Copy, Clone, PartialEq, Eq, Debug, Structural)]
pub enum Request {
    /// Open the named device for this direction with these flags.
    Open { stream: u32, mode: i32 },
    /// Set the hardware parameters in one call.
    SetParams {
        format: i32,
        access: u32,
        channels: u32,
        rate: u32,
        soft_resample: i32,
        latency_us: u32,
    },
    /// Prepare the stream for transfers.
    Prepare,
}

/// What a transfer asks for next, or how it ended.
#[derive(Copy, Clone, PartialEq, Eq, Debug)]
pub enum Transfer {
    /// Hand the buffer to the interleaved write call, for this many frames.
    Submit { frames: usize },
    /// Call the recovery primitive with this error code and this flag
    /// (non-zero: print no diagnostics).
    Recover { err: i32, silent: i32 },
    /// The transfer is over: frames written, or the failing status.
    Done(Result<usize, isize>),
}

/// The state of a handle, as the contracts speak of it.
pub struct PcmView {
    pub stream: Stream,
    pub mode: Mode,
    pub format: Format,
    pub access: Access,
    pub channels: nat,
    pub rate: nat,
    pub phase: Phase,
    /// The handle holds an open stream, which it must close once.
    pub held: bool,
}

impl PcmView {
    /// A handle that has not yet acquired its stream.
    pub open spec fn start(
        stream: Stream,
        mode: Mode,
        format: Format,
        access: Access,
        channels: nat,
        rate: nat,
    ) -> PcmView {
        PcmView {
            stream,
            mode,
            format,
            access,
            channels,
            rate,
            phase: Phase::Acquiring,
            held: false,
        }
    }

    pub open spec fn wf(self) -> bool {
        &&& 1 <= self.channels <= u32::MAX
        &&& self.rate <= u32::MAX
        &&& self.phase is Acquiring ==> !self.held
        &&& self.phase is Closed ==> !self.held
        &&& (self.phase is Configuring || self.phase is Preparing || self.phase is Ready
            || self.phase is Writing || self.phase is Recovering) ==> self.held
    }

    pub open spec fn with_phase(self, phase: Phase) -> PcmView {
        PcmView { phase, ..self }
    }

    /// The call that opening asks for next, if any.
    pub open spec fn request(self) -> Option<Request> {
        match self.phase {
            Phase::Acquiring => Some(
                Request::Open { stream: self.stream.code(), mode: self.mode.code() },
            ),
            Phase::Configuring => Some(
                Request::SetParams {
                    format: self.format.code(),
                    access: self.access.code(),
                    channels: self.channels as u32,
                    rate: self.rate as u32,
                    soft_resample: SOFT_RESAMPLE,
                    latency_us: LATENCY_US,
                },
            ),
            Phase::Preparing => Some(Request::Prepare),
            _ => None,
        }
    }

    /// The state after the requested call gave `status`, and whether that
    /// step failed. A failure is final; a successful acquisition makes the
    /// handle hold the stream.
    pub open spec fn settle(self, status: i32) -> (PcmView, Result<(), isize>) {
        if status < 0 {
            (self.with_phase(Phase::Failed(status as isize)), Err(status as isize))
        } else {
            match self.phase {
                Phase::Acquiring => (
                    PcmView { phase: Phase::Configuring, held: true, ..self },
                    Ok(()),
                ),
                Phase::Configuring => (self.with_phase(Phase::Preparing), Ok(())),
                _ => (self.with_phase(Phase::Ready), Ok(())),
            }
        }
    }

    /// Whether a buffer of `len` elements of `width` bytes fits the handle:
    /// whole frames, and elements of the sample format's width.
    pub open spec fn accepts(self, len: nat, width: nat) -> bool {
        len % self.channels == 0 && width == self.format.width()
    }

    /// Start a transfer of `len` elements: on a ready handle, ask for
    /// `len / channels` frames; on a failed one, fail again at once.
    pub open spec fn begin_write(self, len: nat) -> (PcmView, Transfer) {
        match self.phase {
            Phase::Failed(code) => (self, Transfer::Done(Err(code))),
            _ => (
                self.with_phase(Phase::Writing),
                Transfer::Submit { frames: (len / self.channels) as usize },
            ),
        }
    }

    /// The transfer call reported `written`: a frame count, or a negative
    /// error code that is handed to recovery.
    pub open spec fn complete_write(self, written: isize) -> (PcmView, Transfer) {
        if written < 0 {
            (
                self.with_phase(Phase::Recovering),
                Transfer::Recover { err: written as i32, silent: RECOVER_SILENT },
            )
        } else {
            (self.with_phase(Phase::Ready), Transfer::Done(Ok(written as usize)))
        }
    }

    /// The recovery call reported `status`: on success it is returned as
    /// is; a failure leaves the handle unusable.
    pub open spec fn complete_recovery(self, status: i32) -> (PcmView, Result<usize, isize>) {
        if status < 0 {
            (self.with_phase(Phase::Failed(status as isize)), Err(status as isize))
        } else {
            (self.with_phase(Phase::Ready), Ok(status as usize))
        }
    }

    /// Release the handle: the stream is to be closed iff it is held.
    pub open spec fn release(self) -> (PcmView, bool) {
        (PcmView { phase: Phase::Closed, held: false, ..self }, self.held)
    }
}

/// One stream of a sound device: its parameters, and where it stands
/// in its life. The stream itself is held by the caller, which makes the
/// calls that the handle asks for.
pub struct PCM {
    stream: Stream,
    mode: Mode,
    sample_fmt: Format,
    access: Access,
    channels: usize,
    rate: usize,
    phase: Phase,
    held: bool,
}

impl View for PCM {
    type V = PcmView;

    closed spec fn view(&self) -> PcmView {
        PcmView {
            stream: self.stream,
            mode: self.mode,
            format: self.sample_fmt,
            access: self.access,
            channels: self.channels as nat,
            rate: self.rate as nat,
            phase: self.phase,
            held: self.held,
        }
    }
}

impl PCM {
    pub open spec fn wf(&self) -> bool {
        self@.wf()
    }

    /// A handle about to open a stream with these parameters; `request`
    /// and `settle` then lead it through acquisition, configuration and
    /// preparation.
    pub fn open(
        stream: Stream,
        mode: Mode,
        format: Format,
        access: Access,
        channels: usize,
        rate: usize,
    ) -> (r: PCM)
        requires
            1 <= channels <= u32::MAX,
            rate <= u32::MAX,
        ensures
            r.wf(),
            r@ == PcmView::start(stream, mode, format, access, channels as nat, rate as nat),
    {
        PCM {
            stream,
            mode,
            sample_fmt: format,
            access,
            channels,
            rate,
            phase: Phase::Acquiring,
            held: false,
        }
    }
    /// The call that opening asks for next; `None` once opening is over.
    pub fn request(&self) -> (r: Option<Request>)
        requires
            self.wf(),
        ensures
            r == self@.request(),
    {
        match self.phase {
            Phase::Acquiring => Some(
                Request::Open { stream: self.stream.to_ffi(), mode: self.mode.to_ffi() },
            ),
            Phase::Configuring => Some(
                Request::SetParams {
                    format: self.sample_fmt.to_ffi(),
                    access: self.access.to_ffi(),
                    channels: self.channels as u32,
                    rate: self.rate as u32,
                    soft_resample: SOFT_RESAMPLE,
                    latency_us: LATENCY_US,
                },
            ),
            Phase::Preparing => Some(Request::Prepare),
            _ => None,
        }
    }

    /// Take the status that the requested call returned. A negative status
    /// fails the whole opening with that code; the caller then releases
    /// the handle, which closes the stream iff it was acquired.
    pub fn settle(&mut self, status: i32) -> (r: Result<(), isize>)
        requires
            old(self).wf(),
            old(self)@.request() is Some,
        ensures
            final(self).wf(),
            (final(self)@, r) == old(self)@.settle(status),
            r == (if status < 0 { Err(status as isize) } else { Ok(()) }),
    {
        if status < 0 {
            self.phase = Phase::Failed(status as isize);
            return Err(status as isize);
        }
        match self.phase {
            Phase::Acquiring => {
                self.phase = Phase::Configuring;
                self.held = true;
            },
            Phase::Configuring => {
                self.phase = Phase::Preparing;
            },
            _ => {
                self.phase = Phase::Ready;
            },
        }
        Ok(())
    }

    /// Whether `buffer` holds whole frames of samples of the handle's format.
    /// A transfer of any other buffer is a caller's error.
    pub fn accepts<T>(&self, buffer: &[T]) -> (r: bool)
        requires
            self.wf(),
        ensures
            r == self@.accepts(buffer@.len(), vstd::layout::size_of::<T>()),
    {
        buffer.len() % self.channels == 0 && core::mem::size_of::<T>() == self.sample_fmt.size()
    }

    /// Start an interleaved write of `buffer`: ask for `buffer.len() / channels`
    /// frames to be handed to the transfer call, or, on a handle that a
    /// failed recovery left unusable, fail again with that code.
    pub fn write_interleaved<T: Copy>(&mut self, buffer: &[T]) -> (r: Transfer)
        requires
            old(self).wf(),
            old(self)@.phase is Ready || old(self)@.phase is Failed,
            old(self)@.accepts(buffer@.len(), vstd::layout::size_of::<T>()),
        ensures
            final(self).wf(),
            (final(self)@, r) == old(self)@.begin_write(buffer@.len()),
            old(self)@.phase is Ready ==> r == (Transfer::Submit {
                frames: (buffer@.len() / old(self)@.channels) as usize,
            }),
    {
        match self.phase {
            Phase::Failed(code) => Transfer::Done(Err(code)),
            _ => {
                self.phase = Phase::Writing;
                Transfer::Submit { frames: buffer.len() / self.channels }
            },
        }
    }

    /// Take what the transfer call returned: the frames written, or a
    /// negative code, which is handed to the recovery call.
    pub fn complete_write(&mut self, written: isize) -> (r: Transfer)
        requires
            old(self).wf(),
            old(self)@.phase is Writing,
        ensures
            final(self).wf(),
            (final(self)@, r) == old(self)@.complete_write(written),
    {
        if written < 0 {
            self.phase = Phase::Recovering;
            Transfer::Recover { err: written as i32, silent: RECOVER_SILENT }
        } else {
            self.phase = Phase::Ready;
            Transfer::Done(Ok(written as usize))
        }
    }

    /// Take what the recovery call returned: a non-negative status is
    /// the write's result as it stands; a negative one fails the write and
    /// leaves the handle unusable.
    pub fn complete_recovery(&mut self, status: i32) -> (r: Result<usize, isize>)
        requires
            old(self).wf(),
            old(self)@.phase is Recovering,
        ensures
            final(self).wf(),
            (final(self)@, r) == old(self)@.complete_recovery(status),
            r == (if status < 0 { Err(status as isize) } else { Ok(status as usize) }),
    {
        if status < 0 {
            self.phase = Phase::Failed(status as isize);
            Err(status as isize)
        } else {
            self.phase = Phase::Ready;
            Ok(status as usize)
        }
    }

    /// Release the handle. Returns whether the caller is to close the
    /// stream: true iff it was held, so that it is closed once at most.
    pub fn release(&mut self) -> (r: bool)
        requires
            old(self).wf(),
        ensures
            final(self).wf(),
            (final(self)@, r) == old(self)@.release(),
            r == old(self)@.held,
            !final(self)@.held,
    {
        let was_held = self.held;
        self.phase = Phase::Closed;
        self.held = false;
        was_held
    }

    pub fn channels(&self) -> (r: usize)
        ensures
            r == self@.channels,
    {
        self.channels
    }

    pub fn format(&self) -> (r: Format)
        ensures
            r == self@.format,
    {
        self.sample_fmt
    }

    pub fn phase(&self) -> (r: Phase)
        ensures
            r == self@.phase,
    {
        self.phase
    }
}

} // verus!
