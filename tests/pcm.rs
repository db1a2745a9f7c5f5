use alsa::params::{Access, Format, Mode, Stream};
use alsa::pcm::{Phase, Request, Transfer, LATENCY_US, PCM, RECOVER_SILENT, SOFT_RESAMPLE};

/// A stand-in for the sound server: the statuses its calls return, in order,
/// and how often it was asked to close the stream.
struct MockDevice {
    statuses: Vec<i32>,
    calls: Vec<Request>,
    closes: usize,
}

impl MockDevice {
    fn new(statuses: &[i32]) -> MockDevice {
        MockDevice { statuses: statuses.to_vec(), calls: Vec::new(), closes: 0 }
    }

    fn call(&mut self, req: Request) -> i32 {
        self.calls.push(req);
        self.statuses.remove(0)
    }

    fn release(&mut self, pcm: &mut PCM) {
        if pcm.release() {
            self.closes += 1;
        }
    }
}

fn stereo_s16() -> PCM {
    PCM::open(Stream::Playback, Mode::Blocking, Format::Signed16, Access::Interleaved, 2, 44100)
}

fn run_open(dev: &mut MockDevice, pcm: &mut PCM) -> Result<(), isize> {
    while let Some(req) = pcm.request() {
        let status = dev.call(req);
        pcm.settle(status)?;
    }
    Ok(())
}

fn ready_stereo(dev: &mut MockDevice) -> PCM {
    let mut pcm = stereo_s16();
    assert_eq!(run_open(dev, &mut pcm), Ok(()));
    pcm
}

#[test]
fn open_records_parameters() {
    let mut dev = MockDevice::new(&[0, 0, 0]);
    let mut pcm = PCM::open(Stream::Capture, Mode::Nonblocking, Format::FloatLE, Access::Noninterleaved, 6, 48000);
    assert_eq!(run_open(&mut dev, &mut pcm), Ok(()));
    assert_eq!(pcm.channels(), 6);
    assert_eq!(pcm.format(), Format::FloatLE);
    assert_eq!(pcm.phase(), Phase::Ready);
    assert_eq!(
        dev.calls,
        vec![
            Request::Open { stream: 1, mode: 1 },
            Request::SetParams {
                format: 14,
                access: 4,
                channels: 6,
                rate: 48000,
                soft_resample: 1,
                latency_us: 500000,
            },
            Request::Prepare,
        ]
    );
    assert_eq!(SOFT_RESAMPLE, 1);
    assert_eq!(LATENCY_US, 500000);
    assert_ne!(RECOVER_SILENT, 0);
}

#[test]
fn open_fails_on_acquire_without_close() {
    let mut dev = MockDevice::new(&[-16]);
    let mut pcm = stereo_s16();
    assert_eq!(run_open(&mut dev, &mut pcm), Err(-16));
    assert_eq!(pcm.phase(), Phase::Failed(-16));
    dev.release(&mut pcm);
    assert_eq!(dev.closes, 0);
}

#[test]
fn open_fails_on_configure_and_closes_once() {
    let mut dev = MockDevice::new(&[0, -22]);
    let mut pcm = stereo_s16();
    assert_eq!(run_open(&mut dev, &mut pcm), Err(-22));
    assert_eq!(dev.calls.len(), 2);
    dev.release(&mut pcm);
    dev.release(&mut pcm);
    assert_eq!(dev.closes, 1);
}

#[test]
fn open_fails_on_prepare_and_closes_once() {
    let mut dev = MockDevice::new(&[0, 0, -5]);
    let mut pcm = stereo_s16();
    assert_eq!(run_open(&mut dev, &mut pcm), Err(-5));
    dev.release(&mut pcm);
    assert_eq!(dev.closes, 1);
}

#[test]
fn write_whole_buffer_reports_frames() {
    let mut dev = MockDevice::new(&[0, 0, 0]);
    let mut pcm = ready_stereo(&mut dev);
    let buffer = vec![0i16; 4096];
    assert!(pcm.accepts(&buffer));
    assert_eq!(pcm.write_interleaved(&buffer), Transfer::Submit { frames: 2048 });
    assert_eq!(pcm.complete_write(2048), Transfer::Done(Ok(2048)));
    assert_eq!(pcm.phase(), Phase::Ready);
}

#[test]
fn short_write_is_returned_as_is() {
    let mut dev = MockDevice::new(&[0, 0, 0]);
    let mut pcm = ready_stereo(&mut dev);
    let buffer = vec![0i16; 10];
    assert_eq!(pcm.write_interleaved(&buffer), Transfer::Submit { frames: 5 });
    assert_eq!(pcm.complete_write(3), Transfer::Done(Ok(3)));
}

#[test]
fn buffer_of_partial_frame_is_refused() {
    let mut dev = MockDevice::new(&[0, 0, 0]);
    let pcm = ready_stereo(&mut dev);
    let buffer = vec![0i16; 4095];
    assert!(!pcm.accepts(&buffer));
}

#[test]
fn buffer_of_wrong_sample_width_is_refused() {
    let mut dev = MockDevice::new(&[0, 0, 0]);
    let pcm = ready_stereo(&mut dev);
    assert!(!pcm.accepts(&vec![0u8; 4096]));
    assert!(!pcm.accepts(&vec![0i32; 4096]));
    assert!(pcm.accepts(&vec![0u16; 4096]));
    let bytes = PCM::open(Stream::Playback, Mode::Blocking, Format::Unsigned8, Access::Interleaved, 1, 8000);
    assert!(bytes.accepts(&vec![0u8; 3]));
    let floats = PCM::open(Stream::Playback, Mode::Blocking, Format::FloatLE, Access::Interleaved, 2, 8000);
    assert!(floats.accepts(&vec![0f32; 4]));
    assert!(!floats.accepts(&vec![0f64; 4]));
}

#[test]
fn underrun_is_recovered() {
    let mut dev = MockDevice::new(&[0, 0, 0]);
    let mut pcm = ready_stereo(&mut dev);
    let buffer = vec![0i16; 4096];
    assert_eq!(pcm.write_interleaved(&buffer), Transfer::Submit { frames: 2048 });
    assert_eq!(pcm.complete_write(-32), Transfer::Recover { err: -32, silent: 1 });
    assert_eq!(pcm.phase(), Phase::Recovering);
    assert_eq!(pcm.complete_recovery(0), Ok(0));
    assert_eq!(pcm.phase(), Phase::Ready);
}

#[test]
fn recovery_status_is_returned_as_frames() {
    let mut dev = MockDevice::new(&[0, 0, 0]);
    let mut pcm = ready_stereo(&mut dev);
    pcm.write_interleaved(&vec![0i16; 8]);
    pcm.complete_write(-11);
    assert_eq!(pcm.complete_recovery(7), Ok(7));
}

#[test]
fn failed_recovery_is_fatal() {
    let mut dev = MockDevice::new(&[0, 0, 0]);
    let mut pcm = ready_stereo(&mut dev);
    let buffer = vec![0i16; 4096];
    pcm.write_interleaved(&buffer);
    assert_eq!(pcm.complete_write(-32), Transfer::Recover { err: -32, silent: 1 });
    assert_eq!(pcm.complete_recovery(-19), Err(-19));
    assert_eq!(pcm.phase(), Phase::Failed(-19));
    assert_eq!(pcm.write_interleaved(&buffer), Transfer::Done(Err(-19)));
}

#[test]
fn close_happens_once_whatever_the_writes_gave() {
    let buffer = vec![0i16; 64];
    let mut dev = MockDevice::new(&[0, 0, 0]);
    let mut pcm = ready_stereo(&mut dev);
    pcm.write_interleaved(&buffer);
    pcm.complete_write(32);
    pcm.write_interleaved(&buffer);
    pcm.complete_write(-32);
    pcm.complete_recovery(0);
    pcm.write_interleaved(&buffer);
    pcm.complete_write(-32);
    pcm.complete_recovery(-19);
    dev.release(&mut pcm);
    dev.release(&mut pcm);
    assert_eq!(dev.closes, 1);
    assert_eq!(pcm.phase(), Phase::Closed);
    assert_eq!(pcm.request(), None);
}

#[test]
fn native_codes() {
    assert_eq!(Stream::Playback.to_ffi(), 0);
    assert_eq!(Stream::Capture.to_ffi(), 1);
    assert_eq!(Mode::Blocking.to_ffi(), 0);
    assert_eq!(Mode::Nonblocking.to_ffi(), 1);
    assert_eq!(Mode::Asynchronous.to_ffi(), 2);
    assert_eq!(Access::Interleaved.to_ffi(), 3);
    assert_eq!(Access::Noninterleaved.to_ffi(), 4);
    assert_eq!(Format::Unsigned8.to_ffi(), 1);
    assert_eq!(Format::Signed16.to_ffi(), 2);
    assert_eq!(Format::FloatLE.to_ffi(), 14);
}

#[test]
fn sample_widths() {
    assert_eq!(Format::Unsigned8.size(), 1);
    assert_eq!(Format::Signed16.size(), 2);
    assert_eq!(Format::FloatLE.size(), std::mem::size_of::<f32>());
}
