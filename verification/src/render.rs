//! The frame plan: which GPU commands one frame consists of, in order. The
//! renderer first syncs a dirty light buffer, then runs one depth-only shadow
//! pass per live light (in slot order), then the single forward pass, then
//! the text overlay, and the whole batch is submitted at once. The embedding
//! application executes the returned steps verbatim against its device;
//! everything a step needs is stated in it.

use crate::color_mesh::ColorMesh;
use crate::light::RealLight;
use crate::meshes::push_all;
use crate::model::Model;
use crate::update::real_light_raws;
use crate::uv_mesh::UvModel;
use crate::WgpuRenderer;
use vstd::prelude::*;

verus! {

/// The geometry stores, as the per-type pipelines tell them apart.
#[derive(Clone, Copy, Debug, PartialEq, Eq, Structural)]
pub enum GeometryKind {
    Model,
    ColorMesh,
    UvMesh,
}

/// One GPU command of a frame, in execution order.
#[derive(Clone, Copy, Debug, PartialEq, Eq, Structural)]
pub enum RenderStep {
    /// Rewrite slot `slot` of the real-light storage buffer from the light's
    /// flattened record (at byte offset `slot` times the record stride).
    WriteLight { slot: usize },
    /// Copy the view-projection matrix of the light in slot `slot` out of the
    /// real-light storage buffer into the shadow-pass uniform buffer of
    /// geometry type `kind` (each type's shadow pipeline has its own bind
    /// group, so each gets its own copy of the same matrix).
    CopyLightMatrix { kind: GeometryKind, slot: usize },
    /// Begin a depth-only render pass targeting shadow layer `layer`, owned
    /// by the light in slot `light_slot`, clearing it.
    BeginShadowPass { light_slot: usize, layer: u32 },
    /// Begin the single forward color+depth pass targeting the swap chain,
    /// clearing both.
    BeginForwardPass,
    /// Draw sub-mesh `mesh` of the model in slot `slot` with material
    /// `material` bound: `index_count` indices, `instance_count` instances.
    DrawModelMesh { slot: usize, mesh: usize, material: usize, index_count: usize, instance_count: usize },
    /// Draw the color mesh in slot `slot`: indexed with `index_count` indices
    /// when `indexed`, else `vertex_count` plain vertices; `instance_count`
    /// instances.
    DrawColorMesh { slot: usize, indexed: bool, vertex_count: usize, index_count: usize, instance_count: usize },
    /// Draw the textured mesh in slot `slot`, as for a color mesh.
    DrawUvMesh { slot: usize, indexed: bool, vertex_count: usize, index_count: usize, instance_count: usize },
    /// Queue all `paragraphs` paragraphs and draw the text overlay on top of
    /// the frame.
    TextPass { paragraphs: usize },
}

/// The draw call of one color mesh in slot `slot`.
pub open spec fn color_draw_step(slot: int, m: ColorMesh) -> RenderStep {
    RenderStep::DrawColorMesh {
        slot: slot as usize,
        indexed: m.indices is Some,
        vertex_count: m.vertices@.len() as usize,
        index_count: (match m.indices {
            Some(ix) => ix@.len(),
            None => 0,
        }) as usize,
        instance_count: m.buffered@.len() as usize,
    }
}

/// The draw calls of a color-mesh store, in slot order; cleared slots and
/// meshes with an empty instance buffer are skipped.
pub open spec fn color_draws(s: Seq<Option<ColorMesh>>) -> Seq<RenderStep>
    decreases s.len(),
{
    if s.len() == 0 {
        Seq::empty()
    } else {
        color_draws(s.drop_last()) + match s.last() {
            Some(m) => if m.buffered@.len() > 0 {
                seq![color_draw_step(s.len() - 1, m)]
            } else {
                Seq::empty()
            },
            None => Seq::empty(),
        }
    }
}

/// The draw call of one textured mesh in slot `slot`.
pub open spec fn uv_draw_step(slot: int, m: UvModel) -> RenderStep {
    RenderStep::DrawUvMesh {
        slot: slot as usize,
        indexed: m.indices is Some,
        vertex_count: m.vertices@.len() as usize,
        index_count: (match m.indices {
            Some(ix) => ix@.len(),
            None => 0,
        }) as usize,
        instance_count: m.buffered@.len() as usize,
    }
}

/// The draw calls of a textured-mesh store, in slot order; cleared slots and
/// meshes with an empty instance buffer are skipped.
pub open spec fn uv_draws(s: Seq<Option<UvModel>>) -> Seq<RenderStep>
    decreases s.len(),
{
    if s.len() == 0 {
        Seq::empty()
    } else {
        uv_draws(s.drop_last()) + match s.last() {
            Some(m) => if m.buffered@.len() > 0 {
                seq![uv_draw_step(s.len() - 1, m)]
            } else {
                Seq::empty()
            },
            None => Seq::empty(),
        }
    }
}

/// The draw calls of the first `k` sub-meshes of the model in slot `slot`.
pub open spec fn model_mesh_draws(slot: int, m: Model, k: int) -> Seq<RenderStep>
    decreases k,
{
    if k <= 0 {
        Seq::empty()
    } else {
        model_mesh_draws(slot, m, k - 1) + seq![
            RenderStep::DrawModelMesh {
                slot: slot as usize,
                mesh: (k - 1) as usize,
                material: m.meshes@[k - 1].material,
                index_count: m.meshes@[k - 1].indices@.len() as usize,
                instance_count: m.buffered@.len() as usize,
            },
        ]
    }
}

/// The draw calls of a model store, in slot order, every sub-mesh of each
/// model in turn; cleared slots and models with an empty instance buffer are
/// skipped.
pub open spec fn model_draws(s: Seq<Option<Model>>) -> Seq<RenderStep>
    decreases s.len(),
{
    if s.len() == 0 {
        Seq::empty()
    } else {
        model_draws(s.drop_last()) + match s.last() {
            Some(m) => if m.buffered@.len() > 0 {
                model_mesh_draws(s.len() - 1, m, m.meshes@.len() as int)
            } else {
                Seq::empty()
            },
            None => Seq::empty(),
        }
    }
}

/// The matrix copies that precede the shadow pass of the light in slot
/// `slot`: one per geometry type whose store holds any slots at all.
pub open spec fn shadow_copy_steps(r: WgpuRenderer, slot: int) -> Seq<RenderStep> {
    (if r.color_meshes@.len() > 0 {
        seq![RenderStep::CopyLightMatrix { kind: GeometryKind::ColorMesh, slot: slot as usize }]
    } else {
        Seq::empty()
    }) + (if r.uv_meshes@.len() > 0 {
        seq![RenderStep::CopyLightMatrix { kind: GeometryKind::UvMesh, slot: slot as usize }]
    } else {
        Seq::empty()
    }) + (if r.models@.len() > 0 {
        seq![RenderStep::CopyLightMatrix { kind: GeometryKind::Model, slot: slot as usize }]
    } else {
        Seq::empty()
    })
}

/// The whole shadow pass of the light in slot `slot`: its matrix copies, its
/// pass begin targeting its own layer, and the draws of every non-empty mesh
/// — models, then color meshes, then textured meshes.
pub open spec fn light_steps(r: WgpuRenderer, slot: int) -> Seq<RenderStep> {
    shadow_copy_steps(r, slot) + seq![
        RenderStep::BeginShadowPass {
            light_slot: slot as usize,
            layer: r.real_lights@[slot].layer,
        },
    ] + model_draws(r.models@) + color_draws(r.color_meshes@) + uv_draws(r.uv_meshes@)
}

/// The full shadow phase of the lights in slots below `upto`: for each live
/// light in slot order, its whole shadow pass. Inactive slots get no pass.
pub open spec fn shadow_steps(r: WgpuRenderer, upto: int) -> Seq<RenderStep>
    decreases upto,
{
    if upto <= 0 {
        Seq::empty()
    } else {
        shadow_steps(r, upto - 1) + if r.real_lights@[upto - 1].active {
            light_steps(r, upto - 1)
        } else {
            Seq::empty()
        }
    }
}

/// Appends the whole shadow pass of the live light in slot `i` to the plan.
fn push_light_steps(
    plan: &mut Vec<RenderStep>,
    Ghost(o): Ghost<WgpuRenderer>,
    i: usize,
    layer: u32,
    has_color: bool,
    has_uv: bool,
    has_model: bool,
    model_d: &Vec<RenderStep>,
    color_d: &Vec<RenderStep>,
    uv_d: &Vec<RenderStep>,
)
    requires
        i < o.real_lights@.len(),
        layer == o.real_lights@[i as int].layer,
        has_color == (o.color_meshes@.len() > 0),
        has_uv == (o.uv_meshes@.len() > 0),
        has_model == (o.models@.len() > 0),
        model_d@ == model_draws(o.models@),
        color_d@ == color_draws(o.color_meshes@),
        uv_d@ == uv_draws(o.uv_meshes@),
    ensures
        final(plan)@ == old(plan)@ + light_steps(o, i as int),
{
    if has_color {
        plan.push(RenderStep::CopyLightMatrix { kind: GeometryKind::ColorMesh, slot: i });
    }
    if has_uv {
        plan.push(RenderStep::CopyLightMatrix { kind: GeometryKind::UvMesh, slot: i });
    }
    if has_model {
        plan.push(RenderStep::CopyLightMatrix { kind: GeometryKind::Model, slot: i });
    }
    proof {
        assert(plan@ =~= old(plan)@ + shadow_copy_steps(o, i as int));
    }
    let ghost p1 = plan@;
    plan.push(RenderStep::BeginShadowPass { light_slot: i, layer });
    let ghost p2 = plan@;
    push_all(plan, model_d);
    push_all(plan, color_d);
    push_all(plan, uv_d);
    proof {
        assert(p2 =~= p1 + seq![
            RenderStep::BeginShadowPass {
                light_slot: i,
                layer: o.real_lights@[i as int].layer,
            },
        ]);
        assert(plan@ =~= p2 + model_draws(o.models@) + color_draws(o.color_meshes@) + uv_draws(
            o.uv_meshes@,
        ));
        assert(plan@ =~= old(plan)@ + light_steps(o, i as int));
    }
}

/// The light-buffer sync steps: when the lights were marked dirty, every
/// slot's record is rewritten at its slot offset; otherwise nothing.
pub open spec fn sync_steps(r: WgpuRenderer) -> Seq<RenderStep> {
    if r.lights_are_dirty {
        Seq::new(r.real_lights@.len(), |i: int| RenderStep::WriteLight { slot: i as usize })
    } else {
        Seq::empty()
    }
}

/// The forward phase: one pass over the swap chain drawing color meshes,
/// then textured meshes, then models.
pub open spec fn forward_steps(r: WgpuRenderer) -> Seq<RenderStep> {
    seq![RenderStep::BeginForwardPass] + color_draws(r.color_meshes@) + uv_draws(r.uv_meshes@)
        + model_draws(r.models@)
}

/// Everything one frame executes, in order: light-buffer sync, shadow phase,
/// forward phase, text overlay.
pub open spec fn frame_plan(r: WgpuRenderer) -> Seq<RenderStep> {
    sync_steps(r) + shadow_steps(r, r.real_lights@.len() as int) + forward_steps(r) + seq![
        RenderStep::TextPass { paragraphs: r.paragraphs@.len() as usize },
    ]
}

/// How many shadow passes a step sequence begins.
pub open spec fn shadow_pass_count(steps: Seq<RenderStep>) -> int
    decreases steps.len(),
{
    if steps.len() == 0 {
        0
    } else {
        shadow_pass_count(steps.drop_last()) + if steps.last() is BeginShadowPass {
            1int
        } else {
            0int
        }
    }
}

/// Shadow-pass counting distributes over concatenation.
proof fn lemma_shadow_pass_count_concat(a: Seq<RenderStep>, b: Seq<RenderStep>)
    ensures
        shadow_pass_count(a + b) == shadow_pass_count(a) + shadow_pass_count(b),
    decreases b.len(),
{
    if b.len() == 0 {
        assert(a + b =~= a);
    } else {
        assert((a + b).drop_last() =~= a + b.drop_last());
        assert((a + b).last() == b.last());
        lemma_shadow_pass_count_concat(a, b.drop_last());
    }
}

proof fn lemma_shadow_pass_count_singleton(step: RenderStep)
    ensures
        shadow_pass_count(seq![step]) == if step is BeginShadowPass {
            1int
        } else {
            0int
        },
{
    assert(seq![step].drop_last() =~= Seq::<RenderStep>::empty());
    assert(seq![step].last() == step);
    assert(shadow_pass_count(Seq::<RenderStep>::empty()) == 0);
}

/// A sequence that begins no shadow pass holds no pass-begin step.
proof fn lemma_no_shadow_pass_no_begin(steps: Seq<RenderStep>, k: int)
    requires
        shadow_pass_count(steps) == 0,
        0 <= k < steps.len(),
    ensures
        !(steps[k] is BeginShadowPass),
    decreases steps.len(),
{
    lemma_shadow_pass_count_le(steps.drop_last());
    if k < steps.len() - 1 {
        lemma_no_shadow_pass_no_begin(steps.drop_last(), k);
        assert(steps.drop_last()[k] == steps[k]);
    } else {
        assert(steps[k] == steps.last());
    }
}

proof fn lemma_shadow_pass_count_le(steps: Seq<RenderStep>)
    ensures
        0 <= shadow_pass_count(steps) <= steps.len(),
    decreases steps.len(),
{
    if steps.len() > 0 {
        lemma_shadow_pass_count_le(steps.drop_last());
    }
}

proof fn lemma_color_draws_no_pass(s: Seq<Option<ColorMesh>>)
    ensures
        shadow_pass_count(color_draws(s)) == 0,
    decreases s.len(),
{
    if s.len() > 0 {
        lemma_color_draws_no_pass(s.drop_last());
        match s.last() {
            Some(m) => if m.buffered@.len() > 0 {
                lemma_shadow_pass_count_singleton(color_draw_step(s.len() - 1, m));
                lemma_shadow_pass_count_concat(
                    color_draws(s.drop_last()),
                    seq![color_draw_step(s.len() - 1, m)],
                );
            } else {
                assert(color_draws(s) =~= color_draws(s.drop_last()));
            },
            None => {
                assert(color_draws(s) =~= color_draws(s.drop_last()));
            },
        }
    }
}

proof fn lemma_uv_draws_no_pass(s: Seq<Option<UvModel>>)
    ensures
        shadow_pass_count(uv_draws(s)) == 0,
    decreases s.len(),
{
    if s.len() > 0 {
        lemma_uv_draws_no_pass(s.drop_last());
        match s.last() {
            Some(m) => if m.buffered@.len() > 0 {
                lemma_shadow_pass_count_singleton(uv_draw_step(s.len() - 1, m));
                lemma_shadow_pass_count_concat(
                    uv_draws(s.drop_last()),
                    seq![uv_draw_step(s.len() - 1, m)],
                );
            } else {
                assert(uv_draws(s) =~= uv_draws(s.drop_last()));
            },
            None => {
                assert(uv_draws(s) =~= uv_draws(s.drop_last()));
            },
        }
    }
}

proof fn lemma_model_mesh_draws_no_pass(slot: int, m: Model, k: int)
    ensures
        shadow_pass_count(model_mesh_draws(slot, m, k)) == 0,
    decreases k,
{
    if k > 0 {
        lemma_model_mesh_draws_no_pass(slot, m, k - 1);
        let step = RenderStep::DrawModelMesh {
            slot: slot as usize,
            mesh: (k - 1) as usize,
            material: m.meshes@[k - 1].material,
            index_count: m.meshes@[k - 1].indices@.len() as usize,
            instance_count: m.buffered@.len() as usize,
        };
        lemma_shadow_pass_count_singleton(step);
        lemma_shadow_pass_count_concat(model_mesh_draws(slot, m, k - 1), seq![step]);
    }
}

proof fn lemma_model_draws_no_pass(s: Seq<Option<Model>>)
    ensures
        shadow_pass_count(model_draws(s)) == 0,
    decreases s.len(),
{
    if s.len() > 0 {
        lemma_model_draws_no_pass(s.drop_last());
        match s.last() {
            Some(m) => if m.buffered@.len() > 0 {
                lemma_model_mesh_draws_no_pass(s.len() - 1, m, m.meshes@.len() as int);
                lemma_shadow_pass_count_concat(
                    model_draws(s.drop_last()),
                    model_mesh_draws(s.len() - 1, m, m.meshes@.len() as int),
                );
            } else {
                assert(model_draws(s) =~= model_draws(s.drop_last()));
            },
            None => {
                assert(model_draws(s) =~= model_draws(s.drop_last()));
            },
        }
    }
}

proof fn lemma_copy_steps_no_pass(r: WgpuRenderer, slot: int)
    ensures
        shadow_pass_count(shadow_copy_steps(r, slot)) == 0,
{
    let c = seq![
        RenderStep::CopyLightMatrix { kind: GeometryKind::ColorMesh, slot: slot as usize },
    ];
    let u = seq![RenderStep::CopyLightMatrix { kind: GeometryKind::UvMesh, slot: slot as usize }];
    let m = seq![RenderStep::CopyLightMatrix { kind: GeometryKind::Model, slot: slot as usize }];
    lemma_shadow_pass_count_singleton(c[0]);
    lemma_shadow_pass_count_singleton(u[0]);
    lemma_shadow_pass_count_singleton(m[0]);
    let a = if r.color_meshes@.len() > 0 {
        c
    } else {
        Seq::empty()
    };
    let b = if r.uv_meshes@.len() > 0 {
        u
    } else {
        Seq::empty()
    };
    let d = if r.models@.len() > 0 {
        m
    } else {
        Seq::empty()
    };
    lemma_shadow_pass_count_concat(a, b);
    lemma_shadow_pass_count_concat(a + b, d);
}

/// One light's shadow steps begin exactly one pass.
proof fn lemma_light_steps_one_pass(r: WgpuRenderer, slot: int)
    ensures
        shadow_pass_count(light_steps(r, slot)) == 1,
{
    let begin = seq![
        RenderStep::BeginShadowPass {
            light_slot: slot as usize,
            layer: r.real_lights@[slot].layer,
        },
    ];
    lemma_copy_steps_no_pass(r, slot);
    lemma_shadow_pass_count_singleton(begin[0]);
    lemma_color_draws_no_pass(r.color_meshes@);
    lemma_uv_draws_no_pass(r.uv_meshes@);
    lemma_model_draws_no_pass(r.models@);
    lemma_shadow_pass_count_concat(shadow_copy_steps(r, slot), begin);
    lemma_shadow_pass_count_concat(shadow_copy_steps(r, slot) + begin, model_draws(r.models@));
    lemma_shadow_pass_count_concat(
        shadow_copy_steps(r, slot) + begin + model_draws(r.models@),
        color_draws(r.color_meshes@),
    );
    lemma_shadow_pass_count_concat(
        shadow_copy_steps(r, slot) + begin + model_draws(r.models@) + color_draws(
            r.color_meshes@,
        ),
        uv_draws(r.uv_meshes@),
    );
}

/// Law of the shadow phase: the shadow phase over the slots below `upto`
/// begins exactly one depth-only pass per live light, none for inactive
/// slots.
pub proof fn lemma_one_shadow_pass_per_live_light(r: WgpuRenderer, upto: int)
    requires
        0 <= upto <= r.real_lights@.len(),
    ensures
        shadow_pass_count(shadow_steps(r, upto)) == crate::light::active_count(
            r.real_lights@.subrange(0, upto),
        ),
    decreases upto,
{
    if upto == 0 {
        assert(r.real_lights@.subrange(0, 0) =~= Seq::<RealLight>::empty());
    } else {
        lemma_one_shadow_pass_per_live_light(r, upto - 1);
        assert(r.real_lights@.subrange(0, upto).drop_last() =~= r.real_lights@.subrange(
            0,
            upto - 1,
        ));
        assert(r.real_lights@.subrange(0, upto).last() == r.real_lights@[upto - 1]);
        if r.real_lights@[upto - 1].active {
            lemma_light_steps_one_pass(r, upto - 1);
            lemma_shadow_pass_count_concat(shadow_steps(r, upto - 1), light_steps(r, upto - 1));
        } else {
            assert(shadow_steps(r, upto) =~= shadow_steps(r, upto - 1));
        }
    }
}

/// Law of layer ownership: in a well-formed renderer, every shadow pass of
/// the shadow phase targets exactly the layer of its own light's slot, and
/// that light is live.
pub proof fn lemma_shadow_pass_targets_own_layer(r: WgpuRenderer, upto: int, k: int)
    requires
        r.wf(),
        0 <= upto <= r.real_lights@.len(),
        0 <= k < shadow_steps(r, upto).len(),
        shadow_steps(r, upto)[k] is BeginShadowPass,
    ensures
        shadow_steps(r, upto)[k] matches RenderStep::BeginShadowPass { light_slot, layer }
            ==> layer == light_slot && light_slot < r.real_lights@.len()
            && r.real_lights@[light_slot as int].active,
    decreases upto,
{
    if upto > 0 {
        let whole = shadow_steps(r, upto);
        let prefix = shadow_steps(r, upto - 1);
        if r.real_lights@[upto - 1].active {
            let tail = light_steps(r, upto - 1);
            assert(whole == prefix + tail);
            if k < prefix.len() {
                assert(whole[k] == prefix[k]);
                lemma_shadow_pass_targets_own_layer(r, upto - 1, k);
            } else {
                let j = k - prefix.len();
                assert(whole[k] == tail[j]);
                let copies = shadow_copy_steps(r, upto - 1);
                let begin = seq![
                    RenderStep::BeginShadowPass {
                        light_slot: (upto - 1) as usize,
                        layer: r.real_lights@[upto - 1].layer,
                    },
                ];
                let draws = model_draws(r.models@) + color_draws(r.color_meshes@) + uv_draws(
                    r.uv_meshes@,
                );
                assert(tail =~= copies + begin + draws);
                if j < copies.len() {
                    lemma_copy_steps_no_pass(r, upto - 1);
                    lemma_no_shadow_pass_no_begin(copies, j);
                    assert(tail[j] == copies[j]);
                } else if j == copies.len() {
                    assert(tail[j] == begin[0]);
                } else {
                    lemma_model_draws_no_pass(r.models@);
                    lemma_color_draws_no_pass(r.color_meshes@);
                    lemma_uv_draws_no_pass(r.uv_meshes@);
                    lemma_shadow_pass_count_concat(
                        model_draws(r.models@),
                        color_draws(r.color_meshes@),
                    );
                    lemma_shadow_pass_count_concat(
                        model_draws(r.models@) + color_draws(r.color_meshes@),
                        uv_draws(r.uv_meshes@),
                    );
                    lemma_no_shadow_pass_no_begin(draws, j - copies.len() - 1);
                    assert(tail[j] == draws[j - copies.len() - 1]);
                }
            }
        } else {
            assert(whole =~= prefix);
            lemma_shadow_pass_targets_own_layer(r, upto - 1, k);
            assert(whole[k] == prefix[k]);
        }
    }
}

/// Builds the draw calls of a color-mesh store.
fn color_draw_vec(meshes: &Vec<Option<ColorMesh>>) -> (v: Vec<RenderStep>)
    ensures
        v@ == color_draws(meshes@),
{
    let mut v: Vec<RenderStep> = Vec::new();
    let n = meshes.len();
    let mut i: usize = 0;
    while i < n
        invariant
            i <= n,
            n == meshes@.len(),
            v@ == color_draws(meshes@.subrange(0, i as int)),
        decreases n - i,
    {
        proof {
            assert(meshes@.subrange(0, i as int + 1).drop_last() =~= meshes@.subrange(
                0,
                i as int,
            ));
            assert(meshes@.subrange(0, i as int + 1).last() == meshes@[i as int]);
        }
        match &meshes[i] {
            Some(m) => {
                if m.buffered.len() > 0 {
                    v.push(
                        RenderStep::DrawColorMesh {
                            slot: i,
                            indexed: m.indices.is_some(),
                            vertex_count: m.vertices.len(),
                            index_count: m.index_count(),
                            instance_count: m.buffered.len(),
                        },
                    );
                }
            },
            None => {},
        }
        proof {
            assert(v@ =~= color_draws(meshes@.subrange(0, i as int + 1)));
        }
        i += 1;
    }
    proof {
        assert(meshes@.subrange(0, n as int) =~= meshes@);
    }
    v
}

/// Builds the draw calls of a textured-mesh store.
fn uv_draw_vec(meshes: &Vec<Option<UvModel>>) -> (v: Vec<RenderStep>)
    ensures
        v@ == uv_draws(meshes@),
{
    let mut v: Vec<RenderStep> = Vec::new();
    let n = meshes.len();
    let mut i: usize = 0;
    while i < n
        invariant
            i <= n,
            n == meshes@.len(),
            v@ == uv_draws(meshes@.subrange(0, i as int)),
        decreases n - i,
    {
        proof {
            assert(meshes@.subrange(0, i as int + 1).drop_last() =~= meshes@.subrange(
                0,
                i as int,
            ));
            assert(meshes@.subrange(0, i as int + 1).last() == meshes@[i as int]);
        }
        match &meshes[i] {
            Some(m) => {
                if m.buffered.len() > 0 {
                    v.push(
                        RenderStep::DrawUvMesh {
                            slot: i,
                            indexed: m.indices.is_some(),
                            vertex_count: m.vertices.len(),
                            index_count: m.index_count(),
                            instance_count: m.buffered.len(),
                        },
                    );
                }
            },
            None => {},
        }
        proof {
            assert(v@ =~= uv_draws(meshes@.subrange(0, i as int + 1)));
        }
        i += 1;
    }
    proof {
        assert(meshes@.subrange(0, n as int) =~= meshes@);
    }
    v
}

/// Builds the draw calls of a model store.
fn model_draw_vec(models: &Vec<Option<Model>>) -> (v: Vec<RenderStep>)
    ensures
        v@ == model_draws(models@),
{
    let mut v: Vec<RenderStep> = Vec::new();
    let n = models.len();
    let mut i: usize = 0;
    while i < n
        invariant
            i <= n,
            n == models@.len(),
            v@ == model_draws(models@.subrange(0, i as int)),
        decreases n - i,
    {
        proof {
            assert(models@.subrange(0, i as int + 1).drop_last() =~= models@.subrange(
                0,
                i as int,
            ));
            assert(models@.subrange(0, i as int + 1).last() == models@[i as int]);
        }
        match &models[i] {
            Some(m) => {
                if m.buffered.len() > 0 {
                    let mk = m.meshes.len();
                    let ic = m.buffered.len();
                    let mut k: usize = 0;
                    while k < mk
                        invariant
                            k <= mk,
                            mk == m.meshes@.len(),
                            ic == m.buffered@.len(),
                            v@ == model_draws(models@.subrange(0, i as int)) + model_mesh_draws(
                                i as int,
                                *m,
                                k as int,
                            ),
                            i < models@.len(),
                            models@[i as int] == Some(*m),
                        decreases mk - k,
                    {
                        v.push(
                            RenderStep::DrawModelMesh {
                                slot: i,
                                mesh: k,
                                material: m.meshes[k].material,
                                index_count: m.meshes[k].indices.len(),
                                instance_count: ic,
                            },
                        );
                        proof {
                            assert(v@ =~= model_draws(models@.subrange(0, i as int))
                                + model_mesh_draws(i as int, *m, k as int + 1));
                        }
                        k += 1;
                    }
                }
            },
            None => {},
        }
        proof {
            assert(v@ =~= model_draws(models@.subrange(0, i as int + 1)));
        }
        i += 1;
    }
    proof {
        assert(models@.subrange(0, n as int) =~= models@);
    }
    v
}

impl WgpuRenderer {
    /// Renders one frame: when the lights were marked dirty, the real-light
    /// storage buffer is first rewritten from the current slots and the flag
    /// cleared; then the returned plan holds the frame's GPU commands —
    /// exactly `frame_plan` of the pre-call state — for the application to
    /// execute and submit as one batch.
    #[verifier::rlimit(100)]
    pub fn render(&mut self) -> (plan: Vec<RenderStep>)
        ensures
            *final(self) == (WgpuRenderer {
                lights_are_dirty: false,
                real_lights_buffer: final(self).real_lights_buffer,
                ..*old(self)
            }),
            final(self).real_lights_buffer@ == if old(self).lights_are_dirty {
                old(self).real_lights@.map_values(|l: RealLight| l.spec_to_raw())
            } else {
                old(self).real_lights_buffer@
            },
            plan@ == frame_plan(*old(self)),
    {
        let mut plan: Vec<RenderStep> = Vec::new();

        if self.lights_are_dirty {
            self.lights_are_dirty = false;
            self.real_lights_buffer = real_light_raws(&self.real_lights);
            let n = self.real_lights.len();
            let mut i: usize = 0;
            while i < n
                invariant
                    i <= n,
                    n == self.real_lights@.len(),
                    plan@.len() == i,
                    forall|j: int|
                        0 <= j < i ==> plan@[j] == (RenderStep::WriteLight { slot: j as usize }),
                decreases n - i,
            {
                plan.push(RenderStep::WriteLight { slot: i });
                i += 1;
            }
            proof {
                assert(plan@ =~= sync_steps(*old(self)));
            }
        }
        proof {
            assert(plan@ =~= sync_steps(*old(self)));
        }

        let model_d = model_draw_vec(&self.models);
        let color_d = color_draw_vec(&self.color_meshes);
        let uv_d = uv_draw_vec(&self.uv_meshes);
        let has_color = self.color_meshes.len() > 0;
        let has_uv = self.uv_meshes.len() > 0;
        let has_model = self.models.len() > 0;

        let n = self.real_lights.len();
        let mut i: usize = 0;
        while i < n
            invariant
                i <= n,
                n == self.real_lights@.len(),
                *self == (WgpuRenderer {
                    lights_are_dirty: false,
                    real_lights_buffer: self.real_lights_buffer,
                    ..*old(self)
                }),
                model_d@ == model_draws(old(self).models@),
                color_d@ == color_draws(old(self).color_meshes@),
                uv_d@ == uv_draws(old(self).uv_meshes@),
                has_color == (old(self).color_meshes@.len() > 0),
                has_uv == (old(self).uv_meshes@.len() > 0),
                has_model == (old(self).models@.len() > 0),
                plan@ == sync_steps(*old(self)) + shadow_steps(*old(self), i as int),
            decreases n - i,
        {
            if self.real_lights[i].active {
                let layer = self.real_lights[i].layer;
                push_light_steps(
                    &mut plan,
                    Ghost(*old(self)),
                    i,
                    layer,
                    has_color,
                    has_uv,
                    has_model,
                    &model_d,
                    &color_d,
                    &uv_d,
                );
            }
            proof {
                assert(plan@ =~= sync_steps(*old(self)) + shadow_steps(
                    *old(self),
                    i as int + 1,
                ));
            }
            i += 1;
        }

        plan.push(RenderStep::BeginForwardPass);
        push_all(&mut plan, &color_d);
        push_all(&mut plan, &uv_d);
        push_all(&mut plan, &model_d);
        plan.push(RenderStep::TextPass { paragraphs: self.paragraphs.len() });
        proof {
            assert(plan@ =~= frame_plan(*old(self)));
        }
        plan
    }
}

} // verus!
