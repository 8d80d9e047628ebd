//! Wiring of the standard pipelines.
//!
//! Every stream is served over FLV; HLS is added at once where the codecs are
//! known, and deferred otherwise. MJPEG sources are transcoded first.
use crate::config::SegmentConfig;
use crate::types::{Codec, CodecParams};
use std::sync::Arc;
use vstd::prelude::*;

verus! {

/// Capacity of the channels between the stages of a pipeline.
pub const STAGE_CHANNEL_CAPACITY: usize = 256;

/// Holds shared dependencies for constructing pipelines; `U` uploads objects.
pub struct PipelineFactory<U: ?Sized> {
    segment_cfg: SegmentConfig,
    minio: Arc<U>,
}

impl<U: ?Sized> PipelineFactory<U> {
    /// The segment configuration.
    pub closed spec fn cfg(&self) -> SegmentConfig {
        self.segment_cfg
    }

    /// The object uploader.
    pub closed spec fn uploader(&self) -> Arc<U> {
        self.minio
    }

    /// A factory with its dependencies.
    pub fn new(segment_cfg: SegmentConfig, minio: Arc<U>) -> (r: Self)
        ensures
            r.cfg() == segment_cfg,
            r.uploader() == minio,
    {
        PipelineFactory { segment_cfg, minio }
    }

    /// The segment configuration.
    pub fn segment_cfg(&self) -> (r: &SegmentConfig)
        ensures
            *r == self.cfg(),
    {
        &self.segment_cfg
    }

    /// The object uploader.
    pub fn minio(&self) -> (r: &Arc<U>)
        ensures
            *r == self.uploader(),
    {
        &self.minio
    }
}

/// A task of a pipeline.
#[derive(Clone, Copy, Debug, PartialEq, Eq, Structural)]
pub enum ChainTask {
    RtpDemux,
    Transcode,
    OtelProbe,
    SeqCacheProbe,
    FlvMux,
    FlvSink,
    HlsSegmenter,
    MinIoSink,
    DeferredHls,
}

/// How the HLS branch starts.
#[derive(Clone, Copy, Debug, PartialEq, Eq, Structural)]
pub enum HlsStart {
    /// At once: the codecs are known.
    Immediate,
    /// Once the codecs were announced in-band.
    Deferred,
}

/// Whether a source has an MJPEG stream.
pub open spec fn has_mjpeg_stream(params: Seq<CodecParams>) -> bool {
    exists|i: int| 0 <= i < params.len() && (#[trigger] params[i]).codec == Codec::Mjpeg
}

/// Whether a source has an MJPEG stream.
pub fn has_mjpeg(codec_params: &[CodecParams]) -> (r: bool)
    ensures
        r == has_mjpeg_stream(codec_params@),
{
    let mut i: usize = 0;
    while i < codec_params.len()
        invariant
            i <= codec_params@.len(),
            forall|k: int| 0 <= k < i ==> (#[trigger] codec_params@[k]).codec != Codec::Mjpeg,
        decreases codec_params@.len() - i,
    {
        if codec_params[i].codec == Codec::Mjpeg {
            return true;
        }
        i = i + 1;
    }
    false
}

/// The parameters that an RTSP source's encoded chain is built with. Behind a
/// transcoder they are not known yet.
pub fn chain_params(codec_params: &[CodecParams]) -> (r: &[CodecParams])
    ensures
        if has_mjpeg_stream(codec_params@) {
            r@.len() == 0
        } else {
            r@ == codec_params@
        },
{
    if has_mjpeg(codec_params) {
        &[]
    } else {
        codec_params
    }
}

/// How the HLS branch of a chain starts.
pub fn hls_start(codec_params: &[CodecParams]) -> (r: HlsStart)
    ensures
        r == if codec_params@.len() == 0 {
            HlsStart::Deferred
        } else {
            HlsStart::Immediate
        },
{
    if codec_params.len() == 0 {
        HlsStart::Deferred
    } else {
        HlsStart::Immediate
    }
}

/// The tasks of the FLV path.
pub open spec fn flv_tasks() -> Seq<ChainTask> {
    seq![
        ChainTask::OtelProbe,
        ChainTask::SeqCacheProbe,
        ChainTask::FlvMux,
        ChainTask::FlvSink,
    ]
}

/// The tasks of the HLS branch that start with the chain. There are none where the
/// branch is deferred or could not be built.
pub open spec fn hls_tasks(start: HlsStart, built: bool) -> Seq<ChainTask> {
    if start == HlsStart::Immediate && built {
        seq![ChainTask::HlsSegmenter, ChainTask::MinIoSink]
    } else {
        Seq::empty()
    }
}

/// The tasks beside the chain: where the HLS branch is deferred, one that waits for
/// its codecs and builds it then.
pub open spec fn waiting_tasks(start: HlsStart) -> Seq<ChainTask> {
    if start == HlsStart::Deferred {
        seq![ChainTask::DeferredHls]
    } else {
        Seq::empty()
    }
}

/// The tasks beside the chain: the one that a deferred HLS branch waits in.
pub fn deferred_tasks(start: HlsStart) -> (r: Vec<ChainTask>)
    ensures
        r@ == waiting_tasks(start),
{
    let mut tasks: Vec<ChainTask> = Vec::new();
    if start == HlsStart::Deferred {
        tasks.push(ChainTask::DeferredHls);
    }
    assert(tasks@ =~= waiting_tasks(start));
    tasks
}

/// The tasks of an encoded chain: the FLV path always, then the HLS branch where it
/// starts at once. `hls_built` says whether an immediate branch could be built.
pub fn encoded_chain_tasks(start: HlsStart, hls_built: bool) -> (r: Vec<ChainTask>)
    ensures
        r@ == flv_tasks() + hls_tasks(start, hls_built),
        start == HlsStart::Deferred ==> r@ == flv_tasks(),
{
    let mut tasks: Vec<ChainTask> = Vec::new();
    tasks.push(ChainTask::OtelProbe);
    tasks.push(ChainTask::SeqCacheProbe);
    tasks.push(ChainTask::FlvMux);
    tasks.push(ChainTask::FlvSink);
    if start == HlsStart::Immediate && hls_built {
        tasks.push(ChainTask::HlsSegmenter);
        tasks.push(ChainTask::MinIoSink);
    }
    assert(tasks@ =~= flv_tasks() + hls_tasks(start, hls_built));
    tasks
}

/// The tasks before the encoded chain of an RTSP source.
pub open spec fn rtsp_head(transcodes: bool) -> Seq<ChainTask> {
    if transcodes {
        seq![ChainTask::RtpDemux, ChainTask::Transcode]
    } else {
        seq![ChainTask::RtpDemux]
    }
}

/// The tasks of an RTSP pipeline: the demuxer, the transcoder where the source is
/// MJPEG, then the encoded chain.
pub fn rtsp_pipeline_tasks(codec_params: &[CodecParams], hls_built: bool) -> (r: Vec<ChainTask>)
    ensures
        r@ == rtsp_head(has_mjpeg_stream(codec_params@)) + flv_tasks() + hls_tasks(
            rtsp_start(codec_params@),
            hls_built,
        ),
{
    let mut tasks: Vec<ChainTask> = Vec::new();
    tasks.push(ChainTask::RtpDemux);
    if has_mjpeg(codec_params) {
        tasks.push(ChainTask::Transcode);
    }
    assert(tasks@ =~= rtsp_head(has_mjpeg_stream(codec_params@)));
    let mut chain: Vec<ChainTask> = encoded_chain_tasks(
        hls_start(chain_params(codec_params)),
        hls_built,
    );
    tasks.append(&mut chain);
    tasks
}

/// The tasks that the sequence cache hands packets to beside the FLV path: the HLS
/// branch, or the task that waits to build it.
pub open spec fn hls_feed(start: HlsStart, built: bool) -> Seq<ChainTask> {
    match start {
        HlsStart::Immediate => if built {
            seq![ChainTask::HlsSegmenter]
        } else {
            Seq::empty()
        },
        HlsStart::Deferred => seq![ChainTask::DeferredHls],
    }
}

/// The tasks that a task of an encoded chain hands its output to, in order: the probe
/// to the cache, the cache to both branches, and each branch to its sink.
pub open spec fn chain_feed(task: ChainTask, start: HlsStart, built: bool) -> Seq<ChainTask> {
    match task {
        ChainTask::OtelProbe => seq![ChainTask::SeqCacheProbe],
        ChainTask::SeqCacheProbe => seq![ChainTask::FlvMux] + hls_feed(start, built),
        ChainTask::FlvMux => seq![ChainTask::FlvSink],
        ChainTask::HlsSegmenter => seq![ChainTask::MinIoSink],
        _ => Seq::empty(),
    }
}

/// The tasks that a task of an encoded chain hands its output to, in order.
pub fn feeds(task: ChainTask, start: HlsStart, hls_built: bool) -> (r: Vec<ChainTask>)
    ensures
        r@ == chain_feed(task, start, hls_built),
{
    let mut fed: Vec<ChainTask> = Vec::new();
    match task {
        ChainTask::OtelProbe => {
            fed.push(ChainTask::SeqCacheProbe);
        },
        ChainTask::SeqCacheProbe => {
            fed.push(ChainTask::FlvMux);
            match start {
                HlsStart::Immediate => {
                    if hls_built {
                        fed.push(ChainTask::HlsSegmenter);
                    }
                },
                HlsStart::Deferred => {
                    fed.push(ChainTask::DeferredHls);
                },
            }
        },
        ChainTask::FlvMux => {
            fed.push(ChainTask::FlvSink);
        },
        ChainTask::HlsSegmenter => {
            fed.push(ChainTask::MinIoSink);
        },
        _ => {},
    }
    assert(fed@ =~= chain_feed(task, start, hls_built));
    fed
}

/// How the HLS branch of an RTSP source starts.
pub open spec fn rtsp_start(codec_params: Seq<CodecParams>) -> HlsStart {
    if has_mjpeg_stream(codec_params) || codec_params.len() == 0 {
        HlsStart::Deferred
    } else {
        HlsStart::Immediate
    }
}

/// The tasks that a task of an RTSP pipeline hands its output to, in order: the
/// demuxer to the transcoder where there is one, and the last of the two to the
/// encoded chain.
pub open spec fn rtsp_feed(task: ChainTask, codec_params: Seq<CodecParams>, built: bool) -> Seq<
    ChainTask,
> {
    match task {
        ChainTask::RtpDemux => if has_mjpeg_stream(codec_params) {
            seq![ChainTask::Transcode]
        } else {
            seq![ChainTask::OtelProbe]
        },
        ChainTask::Transcode => seq![ChainTask::OtelProbe],
        _ => chain_feed(task, rtsp_start(codec_params), built),
    }
}

/// The tasks that a task of an RTSP pipeline hands its output to, in order.
pub fn rtsp_feeds(task: ChainTask, codec_params: &[CodecParams], hls_built: bool) -> (r: Vec<
    ChainTask,
>)
    ensures
        r@ == rtsp_feed(task, codec_params@, hls_built),
{
    let mut fed: Vec<ChainTask> = Vec::new();
    match task {
        ChainTask::RtpDemux => {
            if has_mjpeg(codec_params) {
                fed.push(ChainTask::Transcode);
            } else {
                fed.push(ChainTask::OtelProbe);
            }
        },
        ChainTask::Transcode => {
            fed.push(ChainTask::OtelProbe);
        },
        _ => {
            return feeds(task, hls_start(chain_params(codec_params)), hls_built);
        },
    }
    assert(fed@ =~= rtsp_feed(task, codec_params@, hls_built));
    fed
}

/// Whether tasks form a tree below the first one: each but the first has one task
/// that feeds it, which stands before it, and no task feeds any other.
pub open spec fn is_tree(
    tasks: Seq<ChainTask>,
    feed: spec_fn(ChainTask) -> Seq<ChainTask>,
    parent: spec_fn(ChainTask) -> Option<ChainTask>,
) -> bool {
    &&& tasks.no_duplicates()
    &&& tasks.len() > 0 && parent(tasks[0]) is None
    &&& forall|i: int|
        0 < i < tasks.len() ==> parent(#[trigger] tasks[i]) is Some && tasks.take(i).contains(
            parent(tasks[i])->0,
        )
    &&& forall|t: ChainTask, u: ChainTask|
        tasks.contains(t) ==> (#[trigger] feed(t).contains(u) <==> tasks.contains(u) && parent(u)
            == Some(t))
}

/// The task that feeds a task of an encoded chain; the first one is fed by the source.
pub open spec fn chain_parent(task: ChainTask) -> Option<ChainTask> {
    match task {
        ChainTask::SeqCacheProbe => Some(ChainTask::OtelProbe),
        ChainTask::FlvMux | ChainTask::HlsSegmenter | ChainTask::DeferredHls => Some(
            ChainTask::SeqCacheProbe,
        ),
        ChainTask::FlvSink => Some(ChainTask::FlvMux),
        ChainTask::MinIoSink => Some(ChainTask::HlsSegmenter),
        ChainTask::OtelProbe | ChainTask::RtpDemux | ChainTask::Transcode => None,
    }
}

/// All tasks of an encoded chain, a waiting one among them.
pub open spec fn all_tasks(start: HlsStart, built: bool) -> Seq<ChainTask> {
    flv_tasks() + hls_tasks(start, built) + waiting_tasks(start)
}

/// What a task hands its output to, one by one.
proof fn lemma_chain_feed(task: ChainTask, fed: ChainTask, start: HlsStart, built: bool)
    ensures
        chain_feed(task, start, built).contains(fed) == match (task, fed) {
            (ChainTask::OtelProbe, ChainTask::SeqCacheProbe) => true,
            (ChainTask::SeqCacheProbe, ChainTask::FlvMux) => true,
            (ChainTask::SeqCacheProbe, ChainTask::HlsSegmenter) => start == HlsStart::Immediate
                && built,
            (ChainTask::SeqCacheProbe, ChainTask::DeferredHls) => start == HlsStart::Deferred,
            (ChainTask::FlvMux, ChainTask::FlvSink) => true,
            (ChainTask::HlsSegmenter, ChainTask::MinIoSink) => true,
            _ => false,
        },
{
    let all = chain_feed(task, start, built);
    if all.len() > 0 {
        assert(all.contains(all[0]));
    }
    if all.len() > 1 {
        assert(all.contains(all[1]));
    }
}

/// Which tasks an encoded chain has.
proof fn lemma_all_tasks(task: ChainTask, start: HlsStart, built: bool)
    ensures
        all_tasks(start, built).contains(task) == match task {
            ChainTask::RtpDemux | ChainTask::Transcode => false,
            ChainTask::HlsSegmenter | ChainTask::MinIoSink => start == HlsStart::Immediate && built,
            ChainTask::DeferredHls => start == HlsStart::Deferred,
            _ => true,
        },
{
    let tasks = all_tasks(start, built);
    assert(tasks.contains(tasks[0]) && tasks.contains(tasks[1]));
    assert(tasks.contains(tasks[2]) && tasks.contains(tasks[3]));
    if tasks.len() > 4 {
        assert(tasks.contains(tasks[4]));
    }
    if tasks.len() > 5 {
        assert(tasks.contains(tasks[5]));
    }
}

/// An encoded chain is a tree: packets enter at the probe, reach every task, and none
/// twice.
pub proof fn law_chain_is_a_tree(start: HlsStart, built: bool)
    ensures
        is_tree(
            all_tasks(start, built),
            |t: ChainTask| chain_feed(t, start, built),
            |t: ChainTask| chain_parent(t),
        ),
        all_tasks(start, built)[0] == ChainTask::OtelProbe,
{
    let tasks = all_tasks(start, built);
    let feed = |t: ChainTask| chain_feed(t, start, built);
    let parent = |t: ChainTask| chain_parent(t);
    assert forall|i: int| 0 < i < tasks.len() implies parent(#[trigger] tasks[i]) is Some
        && tasks.take(i).contains(parent(tasks[i])->0) by {
        let k = if i == 4 {
            1
        } else {
            i - 1
        };
        assert(tasks.take(i)[k] == parent(tasks[i])->0);
    }
    assert forall|t: ChainTask, u: ChainTask| tasks.contains(t) implies (#[trigger] feed(
        t,
    ).contains(u) <==> tasks.contains(u) && parent(u) == Some(t)) by {
        lemma_chain_feed(t, u, start, built);
        lemma_all_tasks(t, start, built);
        lemma_all_tasks(u, start, built);
    }
}

/// The task that feeds a task of an RTSP pipeline; the demuxer is fed by the source.
pub open spec fn rtsp_parent(task: ChainTask, transcodes: bool) -> Option<ChainTask> {
    match task {
        ChainTask::RtpDemux => None,
        ChainTask::Transcode => Some(ChainTask::RtpDemux),
        ChainTask::OtelProbe => Some(
            if transcodes {
                ChainTask::Transcode
            } else {
                ChainTask::RtpDemux
            },
        ),
        _ => chain_parent(task),
    }
}

/// All tasks of an RTSP pipeline, a waiting one among them.
pub open spec fn all_rtsp_tasks(codec_params: Seq<CodecParams>, built: bool) -> Seq<ChainTask> {
    rtsp_head(has_mjpeg_stream(codec_params)) + all_tasks(rtsp_start(codec_params), built)
}

/// Which tasks an RTSP pipeline has.
proof fn lemma_all_rtsp_tasks(task: ChainTask, codec_params: Seq<CodecParams>, built: bool)
    ensures
        all_rtsp_tasks(codec_params, built).contains(task) == match task {
            ChainTask::RtpDemux => true,
            ChainTask::Transcode => has_mjpeg_stream(codec_params),
            _ => all_tasks(rtsp_start(codec_params), built).contains(task),
        },
{
    let head = rtsp_head(has_mjpeg_stream(codec_params));
    let chain = all_tasks(rtsp_start(codec_params), built);
    let tasks = head + chain;
    assert(tasks.contains(tasks[0]) && tasks.contains(tasks[1]));
    if chain.contains(task) {
        let i = choose|i: int| 0 <= i < chain.len() && chain[i] == task;
        assert(tasks[i + head.len()] == task);
    }
    if tasks.contains(task) {
        let i = choose|i: int| 0 <= i < tasks.len() && tasks[i] == task;
        if i >= head.len() {
            assert(chain[i - head.len()] == task);
            lemma_all_tasks(task, rtsp_start(codec_params), built);
        }
    }
}

/// An RTSP pipeline is a tree: RTP packets enter at the demuxer, and what it makes of
/// them reaches every task, and none twice.
pub proof fn law_rtsp_pipeline_is_a_tree(codec_params: Seq<CodecParams>, built: bool)
    ensures
        is_tree(
            all_rtsp_tasks(codec_params, built),
            |t: ChainTask| rtsp_feed(t, codec_params, built),
            |t: ChainTask| rtsp_parent(t, has_mjpeg_stream(codec_params)),
        ),
        all_rtsp_tasks(codec_params, built)[0] == ChainTask::RtpDemux,
{
    let start = rtsp_start(codec_params);
    let tasks = all_rtsp_tasks(codec_params, built);
    let feed = |t: ChainTask| rtsp_feed(t, codec_params, built);
    let parent = |t: ChainTask| rtsp_parent(t, has_mjpeg_stream(codec_params));
    let n = rtsp_head(has_mjpeg_stream(codec_params)).len() as int;
    assert forall|i: int| 0 < i < tasks.len() implies parent(#[trigger] tasks[i]) is Some
        && tasks.take(i).contains(parent(tasks[i])->0) by {
        let k = if i == n + 4 {
            n + 1
        } else {
            i - 1
        };
        assert(tasks.take(i)[k] == parent(tasks[i])->0);
    }
    assert forall|t: ChainTask, u: ChainTask| tasks.contains(t) implies (#[trigger] feed(
        t,
    ).contains(u) <==> tasks.contains(u) && parent(u) == Some(t)) by {
        lemma_all_rtsp_tasks(t, codec_params, built);
        lemma_all_rtsp_tasks(u, codec_params, built);
        lemma_all_tasks(t, start, built);
        lemma_all_tasks(u, start, built);
        lemma_chain_feed(t, u, start, built);
        if feed(t).len() > 0 {
            assert(feed(t).contains(feed(t)[0]));
        }
    }
}

/// A failed or deferred HLS branch leaves the FLV path as it is, and alone.
pub proof fn law_flv_path_is_always_built(start: HlsStart, hls_built: bool)
    ensures
        (flv_tasks() + hls_tasks(start, hls_built)).take(4) == flv_tasks(),
        start == HlsStart::Deferred || !hls_built ==> flv_tasks() + hls_tasks(start, hls_built)
            == flv_tasks(),
{
    assert((flv_tasks() + hls_tasks(start, hls_built)).take(4) =~= flv_tasks());
    assert(flv_tasks() + Seq::<ChainTask>::empty() =~= flv_tasks());
}

/// A source is transcoded where one of its streams is MJPEG. Its HLS branch starts with
/// the chain where its codecs are known, none of them is MJPEG and the branch could be
/// built; the FLV path is there always. The demuxer comes first.
pub proof fn law_rtsp_tasks_by_codecs(
    params: &[CodecParams],
    hls_built: bool,
    tasks: Vec<ChainTask>,
)
    requires
        call_ensures(rtsp_pipeline_tasks, (params, hls_built), tasks),
    ensures
        ({
            let mjpeg = exists|i: int|
                0 <= i < params@.len() && (#[trigger] params@[i]).codec == Codec::Mjpeg;
            let hls = params@.len() > 0 && !mjpeg && hls_built;
            &&& tasks@.len() == 5 + (if mjpeg {
                1int
            } else {
                0
            }) + (if hls {
                2int
            } else {
                0
            })
            &&& tasks@[0] == ChainTask::RtpDemux
            &&& mjpeg ==> tasks@[1] == ChainTask::Transcode
            &&& !mjpeg ==> !tasks@.contains(ChainTask::Transcode)
            &&& hls ==> tasks@.subrange(1, 7) == seq![
                ChainTask::OtelProbe,
                ChainTask::SeqCacheProbe,
                ChainTask::FlvMux,
                ChainTask::FlvSink,
                ChainTask::HlsSegmenter,
                ChainTask::MinIoSink,
            ]
            &&& !hls ==> tasks@.last() == ChainTask::FlvSink && tasks@[tasks@.len() - 2]
                == ChainTask::FlvMux && tasks@[tasks@.len() - 3] == ChainTask::SeqCacheProbe
                && tasks@[tasks@.len() - 4] == ChainTask::OtelProbe
        }),
{
}

/// The HLS branch waits where no codec is known, and only there.
pub proof fn law_hls_waits_for_codecs(
    params: &[CodecParams],
    chain: &[CodecParams],
    start: HlsStart,
    waiting: Vec<ChainTask>,
)
    requires
        call_ensures(chain_params, (params,), chain),
        call_ensures(hls_start, (chain,), start),
        call_ensures(deferred_tasks, (start,), waiting),
    ensures
        ({
            let mjpeg = exists|i: int|
                0 <= i < params@.len() && (#[trigger] params@[i]).codec == Codec::Mjpeg;
            &&& start == HlsStart::Deferred <==> params@.len() == 0 || mjpeg
            &&& start == HlsStart::Deferred <==> waiting@.len() == 1 && waiting@[0]
                == ChainTask::DeferredHls
            &&& start == HlsStart::Immediate <==> waiting@.len() == 0
            &&& !mjpeg ==> chain@ == params@
        }),
{
}

} // verus!
