//! Format negotiation and stream relay as one state machine. The pipeline
//! starts by absorbing media units until geometry, frame rate and codec are
//! all known (within a bounded unit budget), commits the sink format once,
//! and then forwards frames in arrival order, re-committing whenever a
//! descriptor announces new geometry or a frame carries a new codec.
//!
//! Each step turns one media unit into an action for the sink's owner to
//! perform; the blocking session read and the kernel buffer handshake stay
//! with that owner.

use crate::format::FormatState;
use crate::format::SinkFormat;
use crate::format::absorb_spec;
use crate::media::Codec;
use crate::media::MediaUnit;
use crate::supervisor::StreamError;
use crate::supervisor::TransientKind;
use vstd::prelude::*;

verus! {

/// How many media units the bootstrap may consume before the stream's
/// format must be fully known. The bound keeps a stream that never
/// describes itself from holding the sink's owner forever; exhausting it is
/// a transient failure, retried like a failed connection.
pub const BOOTSTRAP_BUDGET: u32 = 10;

/// Where the pipeline stands: still learning the format, or relaying frames
/// against a committed one. A `Streaming` state can only hold a complete
/// [`SinkFormat`], so no frame is ever written before width, height, frame
/// rate and codec are all known.
#[derive(Clone, Copy, Debug, PartialEq, Eq, Structural)]
pub enum Pipeline {
    /// Absorbing units until the format is fully known; `used` units of the
    /// budget are spent.
    Bootstrapping { pending: FormatState, used: u32 },
    /// The sink format is committed; frames flow.
    Streaming { committed: SinkFormat },
}

/// What the sink's owner must do after one step: nothing, configure the
/// sink, write a frame, or configure and then write when one unit both
/// completes (or changes) the format and carries a frame.
#[derive(Clone, Debug, PartialEq, Eq)]
pub enum RelayAction {
    /// The unit was informational or redundant; nothing to do.
    Ignore,
    /// Commit `format` to the sink before anything else is written.
    Configure { format: SinkFormat },
    /// Write `payload` as one frame; `codec` equals the committed codec.
    Deliver { codec: Codec, payload: Vec<u8> },
    /// Commit `format`, then write `payload`; the frame itself completed or
    /// changed the format, and must not be written before the new commit.
    ConfigureThenDeliver { format: SinkFormat, codec: Codec, payload: Vec<u8> },
}

impl RelayAction {
    /// The action commits a sink format.
    pub open spec fn configures(self) -> bool {
        self is Configure || self is ConfigureThenDeliver
    }

    /// The action writes a frame.
    pub open spec fn delivers(self) -> bool {
        self is Deliver || self is ConfigureThenDeliver
    }
}

/// The pipeline before any unit was read.
pub open spec fn initial_pipeline() -> Pipeline {
    Pipeline::Bootstrapping {
        pending: FormatState { width: None, height: None, fps: None, codec: None },
        used: 0,
    }
}

/// One pipeline step as a mathematical function: the state after reading
/// `u`, and the action (or the bootstrap failure) it produces.
pub open spec fn step_spec(s: Pipeline, u: MediaUnit) -> (Pipeline, Result<
    RelayAction,
    StreamError,
>) {
    match s {
        Pipeline::Bootstrapping { pending, used } => {
            let absorbed = absorb_spec(pending, u);
            if absorbed.complete() {
                let format = absorbed.as_sink_format();
                if u.is_frame() {
                    (
                        Pipeline::Streaming { committed: format },
                        Ok(
                            RelayAction::ConfigureThenDeliver {
                                format,
                                codec: u.frame_codec(),
                                payload: u.frame_payload_vec(),
                            },
                        ),
                    )
                } else {
                    (Pipeline::Streaming { committed: format }, Ok(RelayAction::Configure { format }))
                }
            } else if used + 1 >= BOOTSTRAP_BUDGET {
                (
                    Pipeline::Bootstrapping { pending: absorbed, used: BOOTSTRAP_BUDGET },
                    Err(StreamError::Transient(TransientKind::BootstrapExhausted)),
                )
            } else {
                (
                    Pipeline::Bootstrapping { pending: absorbed, used: (used + 1) as u32 },
                    Ok(RelayAction::Ignore),
                )
            }
        },
        Pipeline::Streaming { committed } => {
            if u.is_descriptor() {
                if u.descriptor_width() == committed.width && u.descriptor_height()
                    == committed.height && u.descriptor_fps() == committed.fps {
                    (s, Ok(RelayAction::Ignore))
                } else {
                    let format = SinkFormat {
                        width: u.descriptor_width(),
                        height: u.descriptor_height(),
                        fps: u.descriptor_fps(),
                        codec: committed.codec,
                    };
                    (Pipeline::Streaming { committed: format }, Ok(RelayAction::Configure { format }))
                }
            } else if u.is_frame() {
                if u.frame_codec() == committed.codec {
                    (
                        s,
                        Ok(
                            RelayAction::Deliver {
                                codec: u.frame_codec(),
                                payload: u.frame_payload_vec(),
                            },
                        ),
                    )
                } else {
                    let format = SinkFormat { codec: u.frame_codec(), ..committed };
                    (
                        Pipeline::Streaming { committed: format },
                        Ok(
                            RelayAction::ConfigureThenDeliver {
                                format,
                                codec: u.frame_codec(),
                                payload: u.frame_payload_vec(),
                            },
                        ),
                    )
                }
            } else {
                (s, Ok(RelayAction::Ignore))
            }
        },
    }
}

impl Pipeline {
    /// The bootstrap never overspends its budget.
    pub open spec fn wf(self) -> bool {
        self matches Pipeline::Bootstrapping { used, .. } ==> used <= BOOTSTRAP_BUDGET
    }

    /// A fresh pipeline knows nothing and has its whole budget.
    pub fn new() -> (p: Pipeline)
        ensures
            p == initial_pipeline(),
            p.wf(),
    {
        Pipeline::Bootstrapping { pending: FormatState::new(), used: 0 }
    }

    /// Read one media unit and say what the sink's owner must do with it.
    /// The step is exactly [`step_spec`]; in particular a plain `Deliver`
    /// only ever repeats the already committed codec, and a unit that
    /// completes or changes the format configures before any write.
    pub fn step(&mut self, unit: MediaUnit) -> (r: Result<RelayAction, StreamError>)
        requires
            old(self).wf(),
        ensures
            final(self).wf(),
            *final(self) == step_spec(*old(self), unit).0,
            r == step_spec(*old(self), unit).1,
            r matches Err(e) ==> e == StreamError::Transient(TransientKind::BootstrapExhausted)
                && (*old(self)) is Bootstrapping,
            r matches Ok(a) ==> ((*old(self)) is Bootstrapping ==> !(a is Deliver)),
            r matches Ok(a) ==> (a is Deliver ==> *final(self) == *old(self) && ((*old(
                self,
            )) matches Pipeline::Streaming { committed } && a->Deliver_codec == committed.codec)),
    {
        match self {
            Pipeline::Bootstrapping { pending, used } => {
                pending.absorb(&unit);
                match pending.committed() {
                    Some(format) => {
                        *self = Pipeline::Streaming { committed: format };
                        match unit {
                            MediaUnit::Keyframe { codec, payload } => Ok(
                                RelayAction::ConfigureThenDeliver { format, codec, payload },
                            ),
                            MediaUnit::Deltaframe { codec, payload } => Ok(
                                RelayAction::ConfigureThenDeliver { format, codec, payload },
                            ),
                            _ => Ok(RelayAction::Configure { format }),
                        }
                    },
                    None => {
                        if *used + 1 >= BOOTSTRAP_BUDGET {
                            *used = BOOTSTRAP_BUDGET;
                            Err(StreamError::Transient(TransientKind::BootstrapExhausted))
                        } else {
                            *used = *used + 1;
                            Ok(RelayAction::Ignore)
                        }
                    },
                }
            },
            Pipeline::Streaming { committed } => {
                match unit {
                    MediaUnit::DescriptorV1 { width, height, fps }
                    | MediaUnit::DescriptorV2 { width, height, fps } => {
                        if width == committed.width && height == committed.height && fps
                            == committed.fps {
                            Ok(RelayAction::Ignore)
                        } else {
                            let format = SinkFormat {
                                width,
                                height,
                                fps,
                                codec: committed.codec,
                            };
                            *committed = format;
                            Ok(RelayAction::Configure { format })
                        }
                    },
                    MediaUnit::Keyframe { codec, payload }
                    | MediaUnit::Deltaframe { codec, payload } => {
                        if codec == committed.codec {
                            Ok(RelayAction::Deliver { codec, payload })
                        } else {
                            let format = SinkFormat { codec, ..*committed };
                            *committed = format;
                            Ok(RelayAction::ConfigureThenDeliver { format, codec, payload })
                        }
                    },
                    MediaUnit::Other => Ok(RelayAction::Ignore),
                }
            },
        }
    }
}

/// The actions a run of the pipeline produces on a sequence of units read
/// from state `s`, in order; a bootstrap failure ends the run.
pub open spec fn run_actions(s: Pipeline, units: Seq<MediaUnit>) -> Seq<RelayAction>
    decreases units.len(),
{
    if units.len() == 0 {
        Seq::empty()
    } else {
        let next = step_spec(s, units[0]);
        match next.1 {
            Ok(a) => seq![a] + run_actions(next.0, units.drop_first()),
            Err(_) => Seq::empty(),
        }
    }
}

/// Gating holds from any state still negotiating: every frame write in the
/// run has a format commitment at or before it, and a plain write has one
/// strictly before it.
proof fn lemma_gating_from(s: Pipeline, units: Seq<MediaUnit>, i: int)
    requires
        s is Bootstrapping,
        0 <= i < run_actions(s, units).len(),
        run_actions(s, units)[i].delivers(),
    ensures
        exists|j: int|
            0 <= j <= i && (#[trigger] run_actions(s, units)[j].configures()) && (run_actions(
                s,
                units,
            )[i] is Deliver ==> j < i),
    decreases units.len(),
{
    let acts = run_actions(s, units);
    let next = step_spec(s, units[0]);
    match next.1 {
        Ok(a) => {
            let rest = run_actions(next.0, units.drop_first());
            assert(acts == seq![a] + rest);
            assert(acts[0] == a);
            if a.configures() {
                assert(acts[0].configures());
                assert(!(a is Deliver));
            } else {
                assert(a is Ignore);
                assert(next.0 is Bootstrapping);
                assert(i >= 1);
                assert(rest[i - 1] == acts[i]);
                lemma_gating_from(next.0, units.drop_first(), i - 1);
                let j0 = choose|j0: int|
                    0 <= j0 <= i - 1 && (#[trigger] rest[j0].configures()) && (rest[i
                        - 1] is Deliver ==> j0 < i - 1);
                assert(acts[j0 + 1] == rest[j0]);
                assert(acts[j0 + 1].configures());
            }
        },
        Err(_) => {
            assert(false);
        },
    }
}

/// Format gating: in any run of a fresh pipeline, no frame is written before
/// the sink format is committed. Every writing action has a committing one
/// at or before it (a `ConfigureThenDeliver` commits immediately before its
/// own write), and a plain `Deliver` has one strictly earlier. Since a
/// commitment carries a [`SinkFormat`], whose fields are not optional, no
/// write can precede width, height, frame rate and codec all being known.
pub proof fn lemma_format_gating(units: Seq<MediaUnit>, i: int)
    requires
        0 <= i < run_actions(initial_pipeline(), units).len(),
        run_actions(initial_pipeline(), units)[i].delivers(),
    ensures
        exists|j: int|
            0 <= j <= i && (#[trigger] run_actions(initial_pipeline(), units)[j].configures()) && (
            run_actions(initial_pipeline(), units)[i] is Deliver ==> j < i),
{
    lemma_gating_from(initial_pipeline(), units, i);
}

/// A unit that fits format `f`: a descriptor announces `f`'s geometry and
/// frame rate, a frame carries `f`'s codec, every other unit fits anything.
pub open spec fn consistent_with(u: MediaUnit, f: SinkFormat) -> bool {
    &&& (u.is_descriptor() ==> u.descriptor_width() == f.width && u.descriptor_height() == f.height
        && u.descriptor_fps() == f.fps)
    &&& (u.is_frame() ==> u.frame_codec() == f.codec)
}

/// Every unit of the stream fits format `f`.
pub open spec fn all_consistent(units: Seq<MediaUnit>, f: SinkFormat) -> bool {
    forall|i: int| 0 <= i < units.len() ==> #[trigger] consistent_with(units[i], f)
}

/// How many actions of a run commit a sink format.
pub open spec fn configure_count(acts: Seq<RelayAction>) -> nat
    decreases acts.len(),
{
    if acts.len() == 0 {
        0
    } else {
        (if acts[0].configures() {
            1nat
        } else {
            0nat
        }) + configure_count(acts.drop_first())
    }
}

/// Partial format knowledge that agrees with `f`: every field already known
/// holds `f`'s value.
pub open spec fn agrees_with(p: FormatState, f: SinkFormat) -> bool {
    &&& (p.width matches Some(w) ==> w == f.width)
    &&& (p.height matches Some(h) ==> h == f.height)
    &&& (p.fps matches Some(r) ==> r == f.fps)
    &&& (p.codec matches Some(c) ==> c == f.codec)
}

/// A committed pipeline never re-commits while the stream keeps fitting the
/// committed format: re-applying an unchanged format is a no-op.
proof fn lemma_streaming_stable(f: SinkFormat, units: Seq<MediaUnit>)
    requires
        all_consistent(units, f),
    ensures
        configure_count(run_actions(Pipeline::Streaming { committed: f }, units)) == 0,
    decreases units.len(),
{
    let s = Pipeline::Streaming { committed: f };
    if units.len() > 0 {
        let next = step_spec(s, units[0]);
        assert(consistent_with(units[0], f));
        assert(next.0 == s);
        let a = next.1->Ok_0;
        assert(!a.configures());
        let acts = run_actions(s, units);
        let rest = run_actions(s, units.drop_first());
        assert(acts == seq![a] + rest);
        assert(acts.drop_first() =~= rest);
        assert(forall|k: int|
            0 <= k < units.drop_first().len() ==> (#[trigger] units.drop_first()[k]) == units[k
                + 1]);
        lemma_streaming_stable(f, units.drop_first());
    }
}

/// While negotiating with knowledge that agrees with `f`, a stream that fits
/// `f` commits the sink format at most once (and, when it does, commits `f`:
/// absorbing only fitting units can complete the knowledge to nothing else).
proof fn lemma_bootstrap_commits_once(p: FormatState, used: u32, units: Seq<MediaUnit>, f: SinkFormat)
    requires
        agrees_with(p, f),
        all_consistent(units, f),
    ensures
        configure_count(run_actions(Pipeline::Bootstrapping { pending: p, used }, units)) <= 1,
    decreases units.len(),
{
    let s = Pipeline::Bootstrapping { pending: p, used };
    if units.len() > 0 {
        let next = step_spec(s, units[0]);
        assert(consistent_with(units[0], f));
        let absorbed = absorb_spec(p, units[0]);
        assert(agrees_with(absorbed, f));
        assert(forall|k: int|
            0 <= k < units.drop_first().len() ==> (#[trigger] units.drop_first()[k]) == units[k
                + 1]);
        match next.1 {
            Ok(a) => {
                let acts = run_actions(s, units);
                let rest = run_actions(next.0, units.drop_first());
                assert(acts == seq![a] + rest);
                assert(acts.drop_first() =~= rest);
                if absorbed.complete() {
                    assert(absorbed.as_sink_format() == f);
                    assert(next.0 == (Pipeline::Streaming { committed: f }));
                    lemma_streaming_stable(f, units.drop_first());
                } else {
                    lemma_bootstrap_commits_once(absorbed, next.0->used, units.drop_first(), f);
                }
            },
            Err(_) => {},
        }
    }
}

/// One commitment per format epoch: over any stream whose descriptors all
/// announce one geometry and whose frames all carry one codec, a fresh
/// pipeline commits the sink format at most once. Together with
/// [`lemma_format_gating`] this pins the bootstrap behaviour: the format is
/// set exactly once, before the first frame write.
pub proof fn lemma_configure_once(units: Seq<MediaUnit>, f: SinkFormat)
    requires
        all_consistent(units, f),
    ensures
        configure_count(run_actions(initial_pipeline(), units)) <= 1,
{
    lemma_bootstrap_commits_once(
        FormatState { width: None, height: None, fps: None, codec: None },
        0,
        units,
        f,
    );
}

/// In-order forwarding: while the stream keeps fitting the committed format,
/// the run answers every unit, and the `i`-th action answers exactly the
/// `i`-th unit — each frame is written with its own payload, in arrival
/// order, and every other unit is dropped. The bridge buffers no more than
/// the one unit in hand and never reorders.
pub proof fn lemma_relay_order(f: SinkFormat, units: Seq<MediaUnit>, i: int)
    requires
        all_consistent(units, f),
        0 <= i < units.len(),
    ensures
        run_actions(Pipeline::Streaming { committed: f }, units).len() == units.len(),
        run_actions(Pipeline::Streaming { committed: f }, units)[i] == (if units[i].is_frame() {
            RelayAction::Deliver { codec: f.codec, payload: units[i].frame_payload_vec() }
        } else {
            RelayAction::Ignore
        }),
    decreases units.len(),
{
    let s = Pipeline::Streaming { committed: f };
    let next = step_spec(s, units[0]);
    assert(consistent_with(units[0], f));
    assert(next.0 == s);
    let a = next.1->Ok_0;
    let rest = run_actions(s, units.drop_first());
    assert(run_actions(s, units) == seq![a] + rest);
    assert(forall|k: int|
        0 <= k < units.drop_first().len() ==> (#[trigger] units.drop_first()[k]) == units[k + 1]);
    if units.len() > 1 {
        lemma_relay_order(f, units.drop_first(), if i >= 1 {
            i - 1
        } else {
            0
        });
    }
}

/// Codec change: a frame whose codec differs from the committed one makes
/// the pipeline re-commit the sink format, with the new codec and unchanged
/// geometry, before that very frame is written; afterwards the commitment
/// carries the new codec, so no write under the old codec can follow.
pub proof fn lemma_codec_change(s: Pipeline, u: MediaUnit)
    requires
        s is Streaming,
        u.is_frame(),
        u.frame_codec() != s->committed.codec,
    ensures
        step_spec(s, u).1 matches Ok(a) && a matches RelayAction::ConfigureThenDeliver {
            format,
            codec,
            payload,
        } && format == (SinkFormat { codec: u.frame_codec(), ..s->committed }) && codec
            == u.frame_codec() && payload@ == u.frame_payload(),
        step_spec(s, u).0 == (Pipeline::Streaming {
            committed: SinkFormat { codec: u.frame_codec(), ..s->committed },
        }),
{
}

/// Codec change, over a whole stream: a pipeline committed to `f` that keeps
/// fitting `f` up to position `k`, where the stream carries its first frame
/// of a different codec, answers that very position by re-committing the
/// format with the new codec and delivering the frame under it — never by a
/// write under the old commitment.
pub proof fn lemma_codec_switch_in_stream(f: SinkFormat, units: Seq<MediaUnit>, k: int)
    requires
        0 <= k < units.len(),
        all_consistent(units.take(k), f),
        units[k].is_frame(),
        units[k].frame_codec() != f.codec,
    ensures
        run_actions(Pipeline::Streaming { committed: f }, units).len() > k,
        run_actions(Pipeline::Streaming { committed: f }, units)[k]
            == (RelayAction::ConfigureThenDeliver {
            format: SinkFormat { codec: units[k].frame_codec(), ..f },
            codec: units[k].frame_codec(),
            payload: units[k].frame_payload_vec(),
        }),
    decreases k,
{
    let s = Pipeline::Streaming { committed: f };
    let next = step_spec(s, units[0]);
    if k == 0 {
        lemma_codec_change(s, units[0]);
        let rest = run_actions(next.0, units.drop_first());
        assert(run_actions(s, units) == seq![next.1->Ok_0] + rest);
    } else {
        assert(units.take(k)[0] == units[0]);
        assert(consistent_with(units[0], f));
        assert(next.0 == s);
        let a = next.1->Ok_0;
        let rest = run_actions(s, units.drop_first());
        assert(run_actions(s, units) == seq![a] + rest);
        assert(units.drop_first().take(k - 1) =~= units.take(k).drop_first());
        assert(forall|j: int|
            0 <= j < k - 1 ==> (#[trigger] units.drop_first().take(k - 1)[j]) == units.take(k)[j
                + 1]);
        assert(all_consistent(units.drop_first().take(k - 1), f));
        assert(units.drop_first()[k - 1] == units[k]);
        lemma_codec_switch_in_stream(f, units.drop_first(), k - 1);
        assert(run_actions(s, units)[k] == rest[k - 1]);
    }
}

/// A plain frame write never slips past a codec change: it happens only
/// while the frame's codec equals the committed one, and leaves the
/// commitment as it is.
pub proof fn lemma_deliver_matches_commitment(s: Pipeline, u: MediaUnit)
    requires
        step_spec(s, u).1 matches Ok(a) && a is Deliver,
    ensures
        s is Streaming,
        u.is_frame(),
        u.frame_codec() == s->committed.codec,
        step_spec(s, u).0 == s,
{
}

} // verus!
