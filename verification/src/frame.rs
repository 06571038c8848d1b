//! The frame orchestrator: draw-list accumulation and pass sequencing.
//!
//! A [`Frame`] accumulates borrowed draw-bundle handles in three ordered
//! lists over the course of one render+present cycle. Finalizing it lays out
//! the complete command recording for that cycle as a [`FramePlan`]: three
//! render passes in the fixed deferred-shading order — geometry into the
//! G-buffer, lights into the HDR accumulation target, filters onto the
//! acquired surface view — each bound to one color target cleared to black
//! and stored, replaying its bundles in submission order. The application
//! records the plan into a command encoder, submits the one resulting
//! command buffer to the queue, and presents the surface image.

use vstd::prelude::*;

use crate::bundle::BundleRef;
use crate::bundle::SurfaceImage;
use crate::display::DisplayFilter;
use crate::error::RenderError;

verus! {

/// One draw submission, tagged with the pass it targets.
#[derive(Clone, Copy, Debug, PartialEq, Eq, Structural)]
pub enum SubmitEvent {
    Geometry { bundle: BundleRef },
    Light { bundle: BundleRef },
    Filter { bundle: BundleRef },
}

/// The attachment a render pass draws into.
#[derive(Clone, Copy, Debug, PartialEq, Eq, Structural)]
pub enum PassTarget {
    /// The G-buffer's primary color attachments (geometry pass).
    GBufferColor,
    /// The G-buffer's HDR accumulation view (lighting pass).
    HdrAccumulation,
    /// The acquired surface view (filter pass).
    SurfaceView,
}

/// Load/store policy of a pass's single color target.
#[derive(Clone, Copy, Debug, PartialEq, Eq, Structural)]
pub struct PassOps {
    /// On pass entry the target is cleared to opaque black.
    pub clear_to_black: bool,
    /// On pass exit the target's contents persist for the next stage.
    pub store: bool,
}

/// One planned render pass: a single color target with its load/store policy
/// and the bundles to replay into it, in order.
pub struct PassPlan {
    pub target: PassTarget,
    pub ops: PassOps,
    pub bundles: Vec<BundleRef>,
}

/// Mathematical model of a [`PassPlan`].
#[verifier::ext_equal]
pub struct PassPlanView {
    pub target: PassTarget,
    pub ops: PassOps,
    pub bundles: Seq<BundleRef>,
}

impl View for PassPlan {
    type V = PassPlanView;

    open spec fn view(&self) -> PassPlanView {
        PassPlanView { target: self.target, ops: self.ops, bundles: self.bundles@ }
    }
}

/// The complete recording for one frame: the passes to record, in order,
/// into one command encoder. Executing a plan means recording every pass,
/// finishing the encoder, submitting the one resulting command buffer to the
/// queue, and presenting `surface`.
pub struct FramePlan {
    /// The surface image to present once the command buffer is submitted.
    pub surface: SurfaceImage,
    /// The render passes, in execution order.
    pub passes: Vec<PassPlan>,
}

/// Mathematical model of a [`FramePlan`].
#[verifier::ext_equal]
pub struct FramePlanView {
    pub surface: SurfaceImage,
    pub passes: Seq<PassPlanView>,
}

impl View for FramePlan {
    type V = FramePlanView;

    open spec fn view(&self) -> FramePlanView {
        FramePlanView {
            surface: self.surface,
            passes: self.passes@.map_values(|p: PassPlan| p@),
        }
    }
}

/// One in-flight render+present cycle under construction. Finalizing it with
/// [`Frame::present`] consumes the value, so a frame can be finalized at
/// most once and cannot be mutated afterwards — ownership enforces this, not
/// a runtime flag.
pub struct Frame {
    pub surface: SurfaceImage,
    pub geom: Vec<BundleRef>,
    pub lights: Vec<BundleRef>,
    pub filters: Vec<BundleRef>,
}

/// Mathematical model of a [`Frame`]: the acquired surface image and the
/// three ordered draw lists.
#[verifier::ext_equal]
pub struct FrameView {
    pub surface: SurfaceImage,
    pub geom: Seq<BundleRef>,
    pub lights: Seq<BundleRef>,
    pub filters: Seq<BundleRef>,
}

impl View for Frame {
    type V = FrameView;

    open spec fn view(&self) -> FrameView {
        FrameView {
            surface: self.surface,
            geom: self.geom@,
            lights: self.lights@,
            filters: self.filters@,
        }
    }
}

/// The model of a freshly acquired frame: all three draw lists empty.
pub open spec fn empty_frame(surface: SurfaceImage) -> FrameView {
    FrameView {
        surface,
        geom: Seq::empty(),
        lights: Seq::empty(),
        filters: Seq::empty(),
    }
}

/// How one draw submission transforms the frame model: the bundle is
/// appended to the list of the pass it targets, and nothing else changes.
pub open spec fn apply_submit(v: FrameView, e: SubmitEvent) -> FrameView {
    match e {
        SubmitEvent::Geometry { bundle } => FrameView { geom: v.geom.push(bundle), ..v },
        SubmitEvent::Light { bundle } => FrameView { lights: v.lights.push(bundle), ..v },
        SubmitEvent::Filter { bundle } => FrameView { filters: v.filters.push(bundle), ..v },
    }
}

/// A whole sequence of draw submissions, applied in order.
pub open spec fn apply_submits(v: FrameView, es: Seq<SubmitEvent>) -> FrameView
    decreases es.len(),
{
    if es.len() == 0 {
        v
    } else {
        apply_submits(apply_submit(v, es[0]), es.drop_first())
    }
}

/// The one load/store policy every pass uses: clear to black, store.
pub open spec fn pass_ops() -> PassOps {
    PassOps { clear_to_black: true, store: true }
}

/// The effective filter chain: the submitted chain verbatim when non-empty,
/// otherwise exactly one default pass-through bundle.
pub open spec fn effective_filters(filters: Seq<BundleRef>) -> Seq<BundleRef> {
    if filters.len() == 0 {
        seq![BundleRef::PassThrough]
    } else {
        filters
    }
}

/// The recording that finalizing a frame produces: three passes in the fixed
/// deferred-shading order, each clearing its single color target to black
/// and storing it, replaying its list in submission order; the filter pass
/// falls back to the default pass-through bundle when no filter was
/// submitted.
pub open spec fn plan_of(v: FrameView) -> FramePlanView {
    FramePlanView {
        surface: v.surface,
        passes: seq![
            PassPlanView {
                target: PassTarget::GBufferColor,
                ops: pass_ops(),
                bundles: v.geom,
            },
            PassPlanView {
                target: PassTarget::HdrAccumulation,
                ops: pass_ops(),
                bundles: v.lights,
            },
            PassPlanView {
                target: PassTarget::SurfaceView,
                ops: pass_ops(),
                bundles: effective_filters(v.filters),
            },
        ],
    }
}

impl Frame {
    /// Try to begin a new frame. The application asks the presentation
    /// surface for the next image and passes the outcome in: `Some` when the
    /// surface supplied one, `None` when it could not (device lost, surface
    /// resized mid-acquire). On success the frame starts with all three draw
    /// lists empty; otherwise the caller gets `SurfaceUnavailable` and may
    /// retry next tick.
    pub fn new(acquired: Option<SurfaceImage>) -> (r: Result<Frame, RenderError>)
        ensures
            acquired matches Some(s) ==> r matches Ok(f) && f@ == empty_frame(s),
            acquired is None ==> r == Err::<Frame, RenderError>(RenderError::SurfaceUnavailable),
    {
        match acquired {
            Some(surface) => Ok(Frame {
                surface,
                geom: Vec::new(),
                lights: Vec::new(),
                filters: Vec::new(),
            }),
            None => Err(RenderError::SurfaceUnavailable),
        }
    }

    /// Append a geometry bundle; it will replay in the geometry pass after
    /// every bundle submitted before it.
    pub fn draw_geom(&mut self, geom: BundleRef)
        ensures
            final(self)@ == apply_submit(old(self)@, SubmitEvent::Geometry { bundle: geom }),
    {
        self.geom.push(geom);
    }

    /// Append a light bundle; it will replay in the lighting pass after
    /// every bundle submitted before it.
    pub fn draw_light(&mut self, light: BundleRef)
        ensures
            final(self)@ == apply_submit(old(self)@, SubmitEvent::Light { bundle: light }),
    {
        self.lights.push(light);
    }

    /// Append a post-process filter bundle; it will replay in the filter
    /// pass after every bundle submitted before it, and its presence
    /// suppresses the default pass-through filter.
    pub fn draw_filter(&mut self, filter: BundleRef)
        ensures
            final(self)@ == apply_submit(old(self)@, SubmitEvent::Filter { bundle: filter }),
    {
        self.filters.push(filter);
    }

    /// Finalize the frame. Consumes the frame — no further submission or
    /// second finalize can compile — and returns the complete recording for
    /// it: geometry, lighting and filter passes in that fixed order, each
    /// clearing its one color target to black and storing it, each replaying
    /// its bundles in submission order, the filter pass falling back to a
    /// single freshly constructed default pass-through filter bundle exactly
    /// when no filter was submitted. The application records these passes
    /// into one command encoder, submits the one resulting command buffer to
    /// the queue, and presents the surface image.
    pub fn present(self) -> (plan: FramePlan)
        ensures
            plan@ == plan_of(self@),
    {
        let Frame { surface, geom, lights, filters } = self;

        let effective: Vec<BundleRef> = if filters.len() == 0 {
            // Built lazily, only when no explicit chain exists; building it
            // anew each such frame is accepted, a process-wide cache being a
            // possible improvement.
            let display = DisplayFilter::default();
            let mut one: Vec<BundleRef> = Vec::new();
            one.push(display.bundle());
            one
        } else {
            filters
        };

        let mut passes: Vec<PassPlan> = Vec::new();
        passes.push(PassPlan {
            target: PassTarget::GBufferColor,
            ops: PassOps { clear_to_black: true, store: true },
            bundles: geom,
        });
        passes.push(PassPlan {
            target: PassTarget::HdrAccumulation,
            ops: PassOps { clear_to_black: true, store: true },
            bundles: lights,
        });
        passes.push(PassPlan {
            target: PassTarget::SurfaceView,
            ops: PassOps { clear_to_black: true, store: true },
            bundles: effective,
        });

        let plan = FramePlan { surface, passes };
        proof {
            let expected = plan_of(self@);
            assert(plan@.passes.len() == 3);
            assert(plan@.passes[0] =~= expected.passes[0]);
            assert(plan@.passes[1] =~= expected.passes[1]);
            assert(plan@.passes[2] =~= expected.passes[2]);
            assert(plan@ =~~= expected);
        }
        plan
    }
}

/// The bundle a submission carries.
pub open spec fn bundle_of(e: SubmitEvent) -> BundleRef {
    match e {
        SubmitEvent::Geometry { bundle } => bundle,
        SubmitEvent::Light { bundle } => bundle,
        SubmitEvent::Filter { bundle } => bundle,
    }
}

/// The pass a submission targets.
pub open spec fn target_of(e: SubmitEvent) -> PassTarget {
    match e {
        SubmitEvent::Geometry { .. } => PassTarget::GBufferColor,
        SubmitEvent::Light { .. } => PassTarget::HdrAccumulation,
        SubmitEvent::Filter { .. } => PassTarget::SurfaceView,
    }
}

/// The bundles a sequence of submissions sends to one pass, in submission
/// order.
pub open spec fn submitted_order(es: Seq<SubmitEvent>, t: PassTarget) -> Seq<BundleRef>
    decreases es.len(),
{
    if es.len() == 0 {
        Seq::empty()
    } else if target_of(es[0]) == t {
        seq![bundle_of(es[0])] + submitted_order(es.drop_first(), t)
    } else {
        submitted_order(es.drop_first(), t)
    }
}

/// Applying a sequence of submissions appends, to each draw list, exactly
/// the bundles submitted to its pass, in submission order, and leaves the
/// surface image untouched.
pub proof fn lemma_apply_submits_orders(v: FrameView, es: Seq<SubmitEvent>)
    ensures
        apply_submits(v, es).surface == v.surface,
        apply_submits(v, es).geom == v.geom + submitted_order(es, PassTarget::GBufferColor),
        apply_submits(v, es).lights == v.lights + submitted_order(es, PassTarget::HdrAccumulation),
        apply_submits(v, es).filters == v.filters + submitted_order(es, PassTarget::SurfaceView),
    decreases es.len(),
{
    if es.len() == 0 {
        assert(v.geom + submitted_order(es, PassTarget::GBufferColor) =~= v.geom);
        assert(v.lights + submitted_order(es, PassTarget::HdrAccumulation) =~= v.lights);
        assert(v.filters + submitted_order(es, PassTarget::SurfaceView) =~= v.filters);
    } else {
        let e = es[0];
        let v1 = apply_submit(v, e);
        lemma_apply_submits_orders(v1, es.drop_first());
        let b = bundle_of(e);
        assert(v.geom.push(b) =~= v.geom + seq![b]);
        assert(v.lights.push(b) =~= v.lights + seq![b]);
        assert(v.filters.push(b) =~= v.filters + seq![b]);
        let rest_g = submitted_order(es.drop_first(), PassTarget::GBufferColor);
        let rest_l = submitted_order(es.drop_first(), PassTarget::HdrAccumulation);
        let rest_f = submitted_order(es.drop_first(), PassTarget::SurfaceView);
        assert((v.geom + seq![b]) + rest_g =~= v.geom + (seq![b] + rest_g));
        assert((v.lights + seq![b]) + rest_l =~= v.lights + (seq![b] + rest_l));
        assert((v.filters + seq![b]) + rest_f =~= v.filters + (seq![b] + rest_f));
    }
}

/// Law: replay order equals submission order. Starting from a freshly
/// acquired frame, after any sequence of draw submissions — however the
/// three kinds interleave — the plan replays, in each of its three passes,
/// exactly the bundles submitted to that pass, in submission order (FIFO per
/// list); the filter pass replays the submitted chain verbatim whenever one
/// was submitted, and the plan presents the acquired surface image.
pub proof fn lemma_replay_order(surface: SurfaceImage, es: Seq<SubmitEvent>)
    ensures
        ({
            let plan = plan_of(apply_submits(empty_frame(surface), es));
            &&& plan.surface == surface
            &&& plan.passes.len() == 3
            &&& plan.passes[0].target == PassTarget::GBufferColor
            &&& plan.passes[0].bundles == submitted_order(es, PassTarget::GBufferColor)
            &&& plan.passes[1].target == PassTarget::HdrAccumulation
            &&& plan.passes[1].bundles == submitted_order(es, PassTarget::HdrAccumulation)
            &&& plan.passes[2].target == PassTarget::SurfaceView
            &&& plan.passes[2].bundles == effective_filters(
                submitted_order(es, PassTarget::SurfaceView),
            )
        }),
{
    lemma_apply_submits_orders(empty_frame(surface), es);
    assert(Seq::<BundleRef>::empty() + submitted_order(es, PassTarget::GBufferColor) =~= submitted_order(es, PassTarget::GBufferColor));
    assert(Seq::<BundleRef>::empty() + submitted_order(es, PassTarget::HdrAccumulation) =~= submitted_order(es, PassTarget::HdrAccumulation));
    assert(Seq::<BundleRef>::empty() + submitted_order(es, PassTarget::SurfaceView) =~= submitted_order(es, PassTarget::SurfaceView));
}

/// Law: load/store discipline. Every pass of every plan binds its one color
/// target with clear-to-black load and store enabled — passes never
/// implicitly accumulate across frames and always persist their output for
/// the next stage.
pub proof fn lemma_pass_policy(v: FrameView, i: int)
    requires
        0 <= i < plan_of(v).passes.len(),
    ensures
        plan_of(v).passes[i].ops == pass_ops(),
{
}

/// Law: default-filter fallback. When no filter was submitted the filter
/// pass replays exactly one bundle, the default pass-through; when the
/// submitted chain is non-empty it is used verbatim, and no pass-through
/// bundle appears that was not itself submitted.
pub proof fn lemma_filter_fallback(v: FrameView)
    ensures
        v.filters.len() == 0 ==> plan_of(v).passes[2].bundles == seq![BundleRef::PassThrough],
        v.filters.len() > 0 ==> plan_of(v).passes[2].bundles == v.filters,
{
}

} // verus!
