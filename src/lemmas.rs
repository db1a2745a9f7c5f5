use vstd::prelude::*;
use crate::params::{Access, Format, Mode, Stream};
use crate::pcm::{LATENCY_US, PcmView, Phase, RECOVER_SILENT, Request, SOFT_RESAMPLE, Transfer};

verus! {

/// The state after opening, when each of the three calls of opening
/// returned the status given.
pub open spec fn opened(p: PcmView, s1: i32, s2: i32, s3: i32) -> PcmView {
    let p1 = p.settle(s1).0;
    if s1 < 0 {
        p1
    } else {
        let p2 = p1.settle(s2).0;
        if s2 < 0 {
            p2
        } else {
            p2.settle(s3).0
        }
    }
}

/// Releasing the handle closes the stream, and releasing it again does not.
pub open spec fn closes_once(p: PcmView) -> bool {
    p.release().1 && !p.release().0.release().1
}

/// Opening with parameters that the device accepts asks for exactly those
/// parameters and yields a ready handle that records the channel count and
/// sample format given.
pub proof fn lemma_open_round_trip(
    stream: Stream,
    mode: Mode,
    format: Format,
    access: Access,
    channels: nat,
    rate: nat,
    s1: i32,
    s2: i32,
    s3: i32,
)
    requires
        1 <= channels <= u32::MAX,
        rate <= u32::MAX,
        s1 >= 0,
        s2 >= 0,
        s3 >= 0,
    ensures
        ({
            let p0 = PcmView::start(stream, mode, format, access, channels, rate);
            let p1 = p0.settle(s1).0;
            let p2 = p1.settle(s2).0;
            let p3 = p2.settle(s3).0;
            &&& p0.request() == Some(
                Request::Open { stream: stream.code(), mode: mode.code() },
            )
            &&& p1.request() == Some(
                Request::SetParams {
                    format: format.code(),
                    access: access.code(),
                    channels: channels as u32,
                    rate: rate as u32,
                    soft_resample: SOFT_RESAMPLE,
                    latency_us: LATENCY_US,
                },
            )
            &&& p2.request() == Some(Request::Prepare)
            &&& p0.settle(s1).1 is Ok && p1.settle(s2).1 is Ok && p2.settle(s3).1 is Ok
            &&& p3 == opened(p0, s1, s2, s3)
            &&& p3.phase == Phase::Ready
            &&& p3.request() is None
            &&& p3.channels == channels
            &&& p3.format == format
            &&& p3.wf()
        }),
{
}

/// A buffer of whole frames is transferred as `len / channels` frames, which
/// cover the buffer exactly.
pub proof fn lemma_frame_count(p: PcmView, len: nat)
    requires
        p.wf(),
        p.phase is Ready,
        len % p.channels == 0,
    ensures
        p.begin_write(len).1 == (Transfer::Submit { frames: (len / p.channels) as usize }),
        (len / p.channels) * p.channels == len,
{
    let (l, c) = (len as int, p.channels as int);
    vstd::arithmetic::div_mod::lemma_fundamental_div_mod(l, c);
    vstd::arithmetic::mul::lemma_mul_is_commutative(l / c, c);
}

/// When a transfer fails with a negative code, recovery is asked for once,
/// with that code and the flag that silences
/// its diagnostics; if it succeeds, its status is
/// the write's result and the handle is ready again.
pub proof fn lemma_underrun_recovered(p: PcmView, code: isize, status: i32)
    requires
        p.wf(),
        p.phase is Writing,
        i32::MIN <= code < 0,
        status >= 0,
    ensures
        ({
            let (q, t) = p.complete_write(code);
            let (r, res) = q.complete_recovery(status);
            &&& t == (Transfer::Recover { err: code as i32, silent: RECOVER_SILENT })
            &&& RECOVER_SILENT != 0
            &&& code as i32 == code
            &&& q.phase is Recovering
            &&& res == Ok::<usize, isize>(status as usize)
            &&& r.phase is Ready
            &&& r.held
        }),
{
}

/// When a transfer and then its recovery fail, the write fails with the
/// recovery's code, and every later write fails with it too, without
/// a transfer.
pub proof fn lemma_fatal_recovery(p: PcmView, code: isize, status: i32, len: nat)
    requires
        p.wf(),
        p.phase is Writing,
        code < 0,
        status < 0,
    ensures
        ({
            let q = p.complete_write(code).0;
            let (r, res) = q.complete_recovery(status);
            &&& res == Err::<usize, isize>(status as isize)
            &&& r.phase == Phase::Failed(status as isize)
            &&& r.request() is None
            &&& r.begin_write(len) == (r, Transfer::Done(Err(status as isize)))
        }),
{
}

/// Whatever each call returns, a stream is closed exactly once if its
/// acquisition succeeded, and never if it failed: across opening (failed
/// or not) and across a write, failed, recovered or not.
pub proof fn lemma_release_exactly_once(
    stream: Stream,
    mode: Mode,
    format: Format,
    access: Access,
    channels: nat,
    rate: nat,
    s1: i32,
    s2: i32,
    s3: i32,
    len: nat,
    written: isize,
    recovered: i32,
)
    requires
        1 <= channels <= u32::MAX,
        rate <= u32::MAX,
    ensures
        ({
            let p = opened(PcmView::start(stream, mode, format, access, channels, rate), s1, s2, s3);
            let w = p.begin_write(len).0.complete_write(written).0;
            let f = if written < 0 { w.complete_recovery(recovered).0 } else { w };
            &&& s1 < 0 ==> !p.release().1 && !p.release().0.release().1
            &&& s1 >= 0 ==> closes_once(p)
            &&& (s1 >= 0 && s2 >= 0 && s3 >= 0) ==> closes_once(f)
        }),
{
}

/// A buffer is accepted for a transfer iff it holds whole frames and its
/// elements have the sample format's width; any other buffer is refused
/// before a transfer is asked for.
pub proof fn lemma_buffer_shape(p: PcmView, len: nat, width: nat)
    requires
        p.wf(),
    ensures
        p.accepts(len, width) <==> (len % p.channels == 0 && width == p.format.width()),
        len % p.channels != 0 ==> !p.accepts(len, width),
        width != p.format.width() ==> !p.accepts(len, width),
{
}

/// A handle that may be written to: ready, or left unusable by a failed
/// recovery.
pub open spec fn writable(p: PcmView) -> bool {
    p.phase is Ready || p.phase is Failed
}

/// One write of `len` elements: the transfer returned `written` and, if
/// that failed, the recovery returned `recovered`.
pub open spec fn wrote(p: PcmView, len: nat, written: isize, recovered: i32) -> PcmView {
    let w = p.begin_write(len).0;
    if w.phase is Writing {
        let c = w.complete_write(written).0;
        if written < 0 {
            c.complete_recovery(recovered).0
        } else {
            c
        }
    } else {
        w
    }
}

/// The writes of `ws`, one after the other, each given as its length, what
/// its transfer returned and what its recovery returned.
pub open spec fn wrote_all(p: PcmView, ws: Seq<(nat, isize, i32)>) -> PcmView
    decreases ws.len(),
{
    if ws.len() == 0 {
        p
    } else {
        let (len, written, recovered) = ws.last();
        wrote(wrote_all(p, ws.drop_last()), len, written, recovered)
    }
}

/// Each step of a write keeps the handle well formed and keeps whether it
/// holds the stream.
pub proof fn lemma_write_steps_keep_handle(p: PcmView, len: nat, written: isize, recovered: i32)
    requires
        p.wf(),
    ensures
        writable(p) ==> p.begin_write(len).0.wf() && p.begin_write(len).0.held == p.held,
        p.phase is Writing ==> p.complete_write(written).0.wf()
            && p.complete_write(written).0.held == p.held,
        p.phase is Recovering ==> p.complete_recovery(recovered).0.wf()
            && p.complete_recovery(recovered).0.held == p.held,
        writable(p) ==> writable(wrote(p, len, written, recovered))
            && wrote(p, len, written, recovered).wf()
            && wrote(p, len, written, recovered).held == p.held,
{
}

/// However many writes are made, and whatever each returned, a handle
/// that may be written to stays so and keeps holding its stream.
pub proof fn lemma_writes_keep_handle(p: PcmView, ws: Seq<(nat, isize, i32)>)
    requires
        p.wf(),
        writable(p),
    ensures
        wrote_all(p, ws).wf(),
        writable(wrote_all(p, ws)),
        wrote_all(p, ws).held == p.held,
    decreases ws.len(),
{
    if ws.len() > 0 {
        lemma_writes_keep_handle(p, ws.drop_last());
        let (len, written, recovered) = ws.last();
        lemma_write_steps_keep_handle(wrote_all(p, ws.drop_last()), len, written, recovered);
    }
}

/// After a successful opening and any number of writes, whatever each
/// returned, releasing closes the stream exactly once.
pub proof fn lemma_closed_once_after_writes(
    stream: Stream,
    mode: Mode,
    format: Format,
    access: Access,
    channels: nat,
    rate: nat,
    s1: i32,
    s2: i32,
    s3: i32,
    ws: Seq<(nat, isize, i32)>,
)
    requires
        1 <= channels <= u32::MAX,
        rate <= u32::MAX,
        s1 >= 0,
        s2 >= 0,
        s3 >= 0,
    ensures
        closes_once(
            wrote_all(
                opened(PcmView::start(stream, mode, format, access, channels, rate), s1, s2, s3),
                ws,
            ),
        ),
{
    let p = opened(PcmView::start(stream, mode, format, access, channels, rate), s1, s2, s3);
    lemma_writes_keep_handle(p, ws);
}

} // verus!
