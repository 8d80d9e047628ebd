//! Resources of the codec library: what is held while a context is opened, and
//! what is released when a step fails.
//!
//! Allocating and freeing is the caller's part.
use vstd::prelude::*;

verus! {

/// Bytes of the buffer that the session description is read through.
pub const SDP_BUFFER_SIZE: usize = 4096;

/// Bytes of the buffers that RTP is read and transport streams written through.
pub const IO_BUFFER_SIZE: usize = 65536;

/// Something that must be released.
#[derive(Clone, Copy, Debug, PartialEq, Eq, Structural)]
pub enum Resource {
    /// The session description being read.
    SdpState,
    /// The buffer of the description's I/O context, not yet owned by it.
    SdpBuffer,
    /// The description's I/O context with its buffer and state.
    SdpIo,
    /// A format context.
    FormatContext,
    /// The I/O context's share of the RTP queue.
    RtpQueue,
    /// The buffer of the RTP I/O context, not yet owned by it.
    RtpBuffer,
    /// The RTP I/O context with its buffer and its share of the queue.
    RtpIo,
    /// The buffer of a segment's I/O context, not yet owned by it.
    SegmentBuffer,
}

/// A step of opening the RTP demuxer.
#[derive(Clone, Copy, Debug, PartialEq, Eq, Structural)]
pub enum DemuxStep {
    /// Allocate the description's buffer.
    AllocSdpBuffer,
    /// Allocate its I/O context, which takes buffer and state over.
    AllocSdpIo,
    /// Allocate the format context.
    AllocFormatContext,
    /// Find the input format.
    FindInputFormat,
    /// Open the input. A failure frees the format context; a success leaves the
    /// description's I/O context unused, and it is released.
    OpenInput,
    /// Allocate the RTP buffer; the queue is shared with the I/O context to be.
    AllocRtpBuffer,
    /// Allocate the RTP I/O context.
    AllocRtpIo,
}

/// What is held when a step fails, in the order of acquisition.
pub open spec fn held_at(failed: DemuxStep) -> Seq<Resource> {
    match failed {
        DemuxStep::AllocSdpBuffer => seq![Resource::SdpState],
        DemuxStep::AllocSdpIo => seq![Resource::SdpState, Resource::SdpBuffer],
        DemuxStep::AllocFormatContext => seq![Resource::SdpIo],
        DemuxStep::FindInputFormat => seq![Resource::SdpIo, Resource::FormatContext],
        DemuxStep::OpenInput => seq![Resource::SdpIo],
        DemuxStep::AllocRtpBuffer => seq![Resource::FormatContext, Resource::RtpQueue],
        DemuxStep::AllocRtpIo => seq![
            Resource::FormatContext,
            Resource::RtpQueue,
            Resource::RtpBuffer,
        ],
    }
}

/// What is released when opening the RTP demuxer fails at a step.
pub fn released_on_failure(failed: DemuxStep) -> (r: Vec<Resource>)
    ensures
        r@ == held_at(failed).reverse(),
{
    let mut out: Vec<Resource> = Vec::new();
    match failed {
        DemuxStep::AllocSdpBuffer => {
            out.push(Resource::SdpState);
        },
        DemuxStep::AllocSdpIo => {
            out.push(Resource::SdpBuffer);
            out.push(Resource::SdpState);
        },
        DemuxStep::AllocFormatContext => {
            out.push(Resource::SdpIo);
        },
        DemuxStep::FindInputFormat => {
            out.push(Resource::FormatContext);
            out.push(Resource::SdpIo);
        },
        DemuxStep::OpenInput => {
            out.push(Resource::SdpIo);
        },
        DemuxStep::AllocRtpBuffer => {
            out.push(Resource::RtpQueue);
            out.push(Resource::FormatContext);
        },
        DemuxStep::AllocRtpIo => {
            out.push(Resource::RtpBuffer);
            out.push(Resource::RtpQueue);
            out.push(Resource::FormatContext);
        },
    }
    assert(out@ =~= held_at(failed).reverse());
    out
}

/// What is held after a step succeeded.
pub open spec fn held_after(done: DemuxStep) -> Seq<Resource> {
    match done {
        DemuxStep::AllocSdpBuffer => held_at(DemuxStep::AllocSdpBuffer).push(Resource::SdpBuffer),
        DemuxStep::AllocSdpIo => seq![Resource::SdpIo],
        DemuxStep::AllocFormatContext => held_at(DemuxStep::AllocFormatContext).push(
            Resource::FormatContext,
        ),
        DemuxStep::FindInputFormat => held_at(DemuxStep::FindInputFormat),
        DemuxStep::OpenInput => seq![Resource::FormatContext, Resource::RtpQueue],
        DemuxStep::AllocRtpBuffer => held_at(DemuxStep::AllocRtpBuffer).push(Resource::RtpBuffer),
        DemuxStep::AllocRtpIo => released_with_demuxer(),
    }
}

/// What an open demuxer holds, in the order of its release: the format context
/// before the I/O context that it reads through.
pub open spec fn released_with_demuxer() -> Seq<Resource> {
    seq![Resource::FormatContext, Resource::RtpIo]
}

/// What is released with an open demuxer, in order.
pub fn released_on_drop() -> (r: Vec<Resource>)
    ensures
        r@ == released_with_demuxer(),
{
    let mut out: Vec<Resource> = Vec::new();
    out.push(Resource::FormatContext);
    out.push(Resource::RtpIo);
    assert(out@ =~= released_with_demuxer());
    out
}

/// The step after a step.
pub open spec fn next_step(done: DemuxStep) -> Option<DemuxStep> {
    match done {
        DemuxStep::AllocSdpBuffer => Some(DemuxStep::AllocSdpIo),
        DemuxStep::AllocSdpIo => Some(DemuxStep::AllocFormatContext),
        DemuxStep::AllocFormatContext => Some(DemuxStep::FindInputFormat),
        DemuxStep::FindInputFormat => Some(DemuxStep::OpenInput),
        DemuxStep::OpenInput => Some(DemuxStep::AllocRtpBuffer),
        DemuxStep::AllocRtpBuffer => Some(DemuxStep::AllocRtpIo),
        DemuxStep::AllocRtpIo => None,
    }
}

/// What a step that succeeded leaves unused: once the input is open, the
/// description has been read.
pub open spec fn unused_after(done: DemuxStep) -> Seq<Resource> {
    if done == DemuxStep::OpenInput {
        seq![Resource::SdpIo]
    } else {
        Seq::empty()
    }
}

/// What follows a step of opening the RTP demuxer.
#[derive(Debug)]
pub enum DemuxProgress {
    /// Release these, then take the next step.
    Continue { release: Vec<Resource>, next: DemuxStep },
    /// Release these and report the failure.
    Abandon(Vec<Resource>),
    /// The demuxer is open.
    Opened,
}

/// The first step of opening the RTP demuxer, once the description is there.
pub fn first_demux_step() -> (r: DemuxStep)
    ensures
        r == DemuxStep::AllocSdpBuffer,
{
    DemuxStep::AllocSdpBuffer
}

/// What follows a step of opening the RTP demuxer.
pub fn after_demux_step(step: DemuxStep, succeeded: bool) -> (r: DemuxProgress)
    ensures
        if !succeeded {
            r matches DemuxProgress::Abandon(release) && release@ == held_at(step).reverse()
        } else {
            match next_step(step) {
                Some(n) => r matches DemuxProgress::Continue { release, next } && next == n
                    && release@ == unused_after(step),
                None => r is Opened,
            }
        },
{
    if !succeeded {
        return DemuxProgress::Abandon(released_on_failure(step));
    }
    let mut release: Vec<Resource> = Vec::new();
    let next = match step {
        DemuxStep::AllocSdpBuffer => DemuxStep::AllocSdpIo,
        DemuxStep::AllocSdpIo => DemuxStep::AllocFormatContext,
        DemuxStep::AllocFormatContext => DemuxStep::FindInputFormat,
        DemuxStep::FindInputFormat => DemuxStep::OpenInput,
        DemuxStep::OpenInput => {
            release.push(Resource::SdpIo);
            DemuxStep::AllocRtpBuffer
        },
        DemuxStep::AllocRtpBuffer => DemuxStep::AllocRtpIo,
        DemuxStep::AllocRtpIo => {
            return DemuxProgress::Opened;
        },
    };
    assert(release@ =~= unused_after(step));
    DemuxProgress::Continue { release, next }
}

/// Nothing leaks: what a step leaves behind is what a failure of the next one
/// releases, and what the last one leaves behind is released with the demuxer.
/// Where the input fails to open, the format context was freed by that.
pub proof fn law_failures_release_what_is_held(done: DemuxStep)
    ensures
        match next_step(done) {
            None => held_after(done) == released_with_demuxer(),
            Some(next) => if next == DemuxStep::OpenInput {
                held_after(done) == held_at(next).push(Resource::FormatContext)
            } else {
                held_after(done) == held_at(next)
            },
        },
{
    assert(held_after(DemuxStep::AllocSdpBuffer) =~= held_at(DemuxStep::AllocSdpIo));
    assert(held_after(DemuxStep::AllocFormatContext) =~= held_at(DemuxStep::FindInputFormat));
    assert(held_after(DemuxStep::FindInputFormat) =~= held_at(DemuxStep::OpenInput).push(
        Resource::FormatContext,
    ));
    assert(held_after(DemuxStep::AllocRtpBuffer) =~= held_at(DemuxStep::AllocRtpIo));
}

/// An option of the demuxer.
#[derive(Clone, Debug)]
pub struct DemuxOption {
    pub name: String,
    pub value: String,
}

/// The demuxer's options: RTP is read through the custom I/O context, and packets,
/// fed one at a time, are not reordered.
pub fn demux_options() -> (r: Vec<DemuxOption>)
    ensures
        r@.len() == 3,
        r@[0].name@ == "sdp_flags"@ && r@[0].value@ == "custom_io"@,
        r@[1].name@ == "reorder_queue_size"@ && r@[1].value@ == "0"@,
        r@[2].name@ == "max_delay"@ && r@[2].value@ == "0"@,
{
    let mut out: Vec<DemuxOption> = Vec::new();
    out.push(DemuxOption { name: "sdp_flags".to_owned(), value: "custom_io".to_owned() });
    out.push(DemuxOption { name: "reorder_queue_size".to_owned(), value: "0".to_owned() });
    out.push(DemuxOption { name: "max_delay".to_owned(), value: "0".to_owned() });
    out
}

/// A step of opening a segment's output context.
#[derive(Clone, Copy, Debug, PartialEq, Eq, Structural)]
pub enum SegmentStep {
    /// Allocate the format context.
    AllocFormatContext,
    /// Copy the streams into it.
    CopyStreams,
    /// Allocate the I/O buffer.
    AllocBuffer,
    /// Allocate the I/O context, which takes the buffer over.
    AllocIo,
}

/// What is held when a step fails, in the order of acquisition.
pub open spec fn segment_held_at(failed: SegmentStep) -> Seq<Resource> {
    match failed {
        SegmentStep::AllocFormatContext => Seq::empty(),
        SegmentStep::CopyStreams => seq![Resource::FormatContext],
        SegmentStep::AllocBuffer => seq![Resource::FormatContext],
        SegmentStep::AllocIo => seq![Resource::FormatContext, Resource::SegmentBuffer],
    }
}

/// The step after a step.
pub open spec fn next_segment_step(done: SegmentStep) -> Option<SegmentStep> {
    match done {
        SegmentStep::AllocFormatContext => Some(SegmentStep::CopyStreams),
        SegmentStep::CopyStreams => Some(SegmentStep::AllocBuffer),
        SegmentStep::AllocBuffer => Some(SegmentStep::AllocIo),
        SegmentStep::AllocIo => None,
    }
}

/// What a step that succeeded adds to what is held; the last one has the I/O
/// context take the buffer over.
pub open spec fn segment_held_after(done: SegmentStep) -> Seq<Resource> {
    match done {
        SegmentStep::AllocFormatContext => segment_held_at(done).push(Resource::FormatContext),
        SegmentStep::CopyStreams => segment_held_at(done),
        SegmentStep::AllocBuffer => segment_held_at(done).push(Resource::SegmentBuffer),
        SegmentStep::AllocIo => segment_held_at(done),
    }
}

/// What follows a step of opening a segment's output context.
#[derive(Debug)]
pub enum SegmentProgress {
    /// Take the next step.
    Continue(SegmentStep),
    /// Release these and report the failure.
    Abandon(Vec<Resource>),
    /// The context is open.
    Opened,
}

/// The first step of opening a segment's output context.
pub fn first_segment_step() -> (r: SegmentStep)
    ensures
        r == SegmentStep::AllocFormatContext,
{
    SegmentStep::AllocFormatContext
}

/// What follows a step of opening a segment's output context.
pub fn after_segment_step(step: SegmentStep, succeeded: bool) -> (r: SegmentProgress)
    ensures
        if !succeeded {
            r matches SegmentProgress::Abandon(release) && release@ == segment_held_at(
                step,
            ).reverse()
        } else {
            match next_segment_step(step) {
                Some(n) => r == SegmentProgress::Continue(n),
                None => r is Opened,
            }
        },
{
    if !succeeded {
        return SegmentProgress::Abandon(segment_released_on_failure(step));
    }
    match step {
        SegmentStep::AllocFormatContext => SegmentProgress::Continue(SegmentStep::CopyStreams),
        SegmentStep::CopyStreams => SegmentProgress::Continue(SegmentStep::AllocBuffer),
        SegmentStep::AllocBuffer => SegmentProgress::Continue(SegmentStep::AllocIo),
        SegmentStep::AllocIo => SegmentProgress::Opened,
    }
}

/// Nothing leaks: what a step leaves behind is what a failure of the next one
/// releases.
pub proof fn law_segment_failures_release_what_is_held(done: SegmentStep)
    ensures
        next_segment_step(done) matches Some(next) ==> segment_held_after(done) == segment_held_at(
            next,
        ),
{
    assert(segment_held_after(SegmentStep::AllocFormatContext) =~= segment_held_at(
        SegmentStep::CopyStreams,
    ));
    assert(segment_held_after(SegmentStep::AllocBuffer) =~= segment_held_at(SegmentStep::AllocIo));
}

/// What is released when opening a segment's output context fails at a step.
pub fn segment_released_on_failure(failed: SegmentStep) -> (r: Vec<Resource>)
    ensures
        r@ == segment_held_at(failed).reverse(),
{
    let mut out: Vec<Resource> = Vec::new();
    match failed {
        SegmentStep::AllocFormatContext => {},
        SegmentStep::CopyStreams | SegmentStep::AllocBuffer => {
            out.push(Resource::FormatContext);
        },
        SegmentStep::AllocIo => {
            out.push(Resource::SegmentBuffer);
            out.push(Resource::FormatContext);
        },
    }
    assert(out@ =~= segment_held_at(failed).reverse());
    out
}

/// Each resource is released by the failures that find it held, and by no other: the
/// description until its I/O context has it, that context until the input is open, the
/// format context from its allocation on but where opening the input freed it, the
/// queue's share and the RTP buffer until their I/O context has them.
pub proof fn law_what_a_failure_releases(failed: DemuxStep, released: Vec<Resource>)
    requires
        call_ensures(released_on_failure, (failed,), released),
    ensures
        released@.no_duplicates(),
        released@.contains(Resource::SdpState) <==> failed == DemuxStep::AllocSdpBuffer || failed
            == DemuxStep::AllocSdpIo,
        released@.contains(Resource::SdpBuffer) <==> failed == DemuxStep::AllocSdpIo,
        released@.contains(Resource::SdpIo) <==> failed == DemuxStep::AllocFormatContext || failed
            == DemuxStep::FindInputFormat || failed == DemuxStep::OpenInput,
        released@.contains(Resource::FormatContext) <==> failed == DemuxStep::FindInputFormat
            || failed == DemuxStep::AllocRtpBuffer || failed == DemuxStep::AllocRtpIo,
        released@.contains(Resource::RtpQueue) <==> failed == DemuxStep::AllocRtpBuffer || failed
            == DemuxStep::AllocRtpIo,
        released@.contains(Resource::RtpBuffer) <==> failed == DemuxStep::AllocRtpIo,
        !released@.contains(Resource::RtpIo) && !released@.contains(Resource::SegmentBuffer),
{
    if released@.len() > 0 {
        assert(released@.contains(released@[0]));
    }
    if released@.len() > 1 {
        assert(released@.contains(released@[1]));
    }
    if released@.len() > 2 {
        assert(released@.contains(released@[2]));
    }
}

/// A segment's output context that fails to open leaves nothing behind: its format
/// context is released from the second step on, and its buffer, before that context,
/// where the last step fails.
pub proof fn law_what_a_segment_failure_releases(failed: SegmentStep, released: Vec<Resource>)
    requires
        call_ensures(segment_released_on_failure, (failed,), released),
    ensures
        released@.len() == 0 <==> failed == SegmentStep::AllocFormatContext,
        released@.len() > 0 ==> released@.last() == Resource::FormatContext,
        released@.len() == 2 <==> failed == SegmentStep::AllocIo,
        released@.len() <= 2,
        released@.len() == 2 ==> released@[0] == Resource::SegmentBuffer,
{
}

/// The steps of opening are taken in one order, each once, and the description's I/O
/// context is released when the input is open and at no other success.
pub proof fn law_steps_of_opening(step: DemuxStep, r: DemuxProgress)
    requires
        call_ensures(after_demux_step, (step, true), r),
    ensures
        r is Opened <==> step == DemuxStep::AllocRtpIo,
        !(r is Opened) ==> r is Continue && match step {
            DemuxStep::AllocSdpBuffer => r->next == DemuxStep::AllocSdpIo,
            DemuxStep::AllocSdpIo => r->next == DemuxStep::AllocFormatContext,
            DemuxStep::AllocFormatContext => r->next == DemuxStep::FindInputFormat,
            DemuxStep::FindInputFormat => r->next == DemuxStep::OpenInput,
            DemuxStep::OpenInput => r->next == DemuxStep::AllocRtpBuffer,
            _ => r->next == DemuxStep::AllocRtpIo,
        },
        step == DemuxStep::OpenInput <==> (r matches DemuxProgress::Continue { release, .. }
            && release@.len() == 1 && release@[0] == Resource::SdpIo),
{
}

} // verus!
