//! Light data: shadow-casting "real" lights living in the bounded slot pool,
//! and unshadowed "simple" lights kept as a dense list, together with the
//! flattened records that the GPU-side storage buffers mirror and the spec
//! machinery (active count, multiset of live light data) that the pool's
//! contracts are stated over.

use crate::camera::Camera;
use crate::math::{Vec3, Vec4};
use crate::WgpuRenderer;
use vstd::multiset::Multiset;
use vstd::prelude::*;

verus! {

broadcast use
    vstd::multiset::group_multiset_axioms,
    vstd::string::to_string_from_display_ensures_for_str,
;

/// Falloff coefficients of a light.
#[derive(Clone, Copy, Debug, PartialEq, Eq, Structural)]
pub struct LightAttenuation {
    pub constant: i64,
    pub linear: i64,
    pub quadratic: i64,
}

/// What a caller sees of one shadow-casting light: everything but the slot
/// bookkeeping.
#[derive(Clone, Copy, Debug, PartialEq, Eq, Structural)]
pub struct RealLightPublic {
    pub camera: Camera,
    pub color: Vec4,
    pub default: i64,
    pub attenuation: LightAttenuation,
}

/// One slot of the shadow-casting light pool. `active` is the soft-delete
/// flag; `resolution` is the shadow-map resolution the slot's render target
/// was allocated at; `layer` is the slot's layer in the pooled shadow
/// texture.
#[derive(Clone, Copy, Debug)]
pub struct RealLight {
    pub camera: Camera,
    pub color: Vec4,
    pub default: i64,
    pub constant: i64,
    pub linear: i64,
    pub quadratic: i64,
    pub active: bool,
    pub resolution: [u32; 2],
    pub layer: u32,
}

/// The flattened record of one real-light slot, as mirrored into the light
/// storage buffer (the application turns the camera descriptor into the
/// projection matrix when encoding bytes).
#[derive(Clone, Copy, Debug)]
pub struct RealLightRaw {
    pub camera: Camera,
    pub pos: Vec3,
    pub color: Vec4,
    pub default: i64,
    pub constant: i64,
    pub linear: i64,
    pub quadratic: i64,
    pub active: u32,
}

/// A light without a shadow map: directional or positional.
#[derive(Clone, Copy, Debug, PartialEq, Eq, Structural)]
pub enum SimpleLightKind {
    Directional(Vec3),
    Positional(Vec3),
}

/// A light without a shadow map.
#[derive(Clone, Copy, Debug, PartialEq, Eq, Structural)]
pub struct SimpleLight {
    pub color: Vec4,
    pub kind: SimpleLightKind,
    pub attenuation: LightAttenuation,
}

/// The flattened record of one simple light; `positional` is 1 for a
/// positional light and 0 for a directional one.
#[derive(Clone, Copy, Debug, PartialEq, Eq, Structural)]
pub struct SimpleLightRaw {
    pub color: Vec4,
    pub position_or_direction: Vec3,
    pub positional: u32,
    pub constant: i64,
    pub linear: i64,
    pub quadratic: i64,
}

impl RealLight {
    /// The caller-visible data of the slot.
    pub open spec fn pub_data(self) -> RealLightPublic {
        RealLightPublic {
            camera: self.camera,
            color: self.color,
            default: self.default,
            attenuation: LightAttenuation {
                constant: self.constant,
                linear: self.linear,
                quadratic: self.quadratic,
            },
        }
    }

    pub open spec fn spec_to_raw(self) -> RealLightRaw {
        RealLightRaw {
            camera: self.camera,
            pos: self.camera.eye,
            color: self.color,
            default: self.default,
            constant: self.constant,
            linear: self.linear,
            quadratic: self.quadratic,
            active: if self.active {
                1
            } else {
                0
            },
        }
    }

    /// Flattens the slot for the light storage buffer.
    pub fn to_raw(&self) -> (r: RealLightRaw)
        ensures
            r == self.spec_to_raw(),
    {
        RealLightRaw {
            camera: self.camera,
            pos: self.camera.get_position(),
            color: self.color,
            default: self.default,
            constant: self.constant,
            linear: self.linear,
            quadratic: self.quadratic,
            active: if self.active {
                1
            } else {
                0
            },
        }
    }
}

impl SimpleLightRaw {
    pub open spec fn spec_from(light: SimpleLight) -> SimpleLightRaw {
        SimpleLightRaw {
            color: light.color,
            position_or_direction: match light.kind {
                SimpleLightKind::Directional(d) => d,
                SimpleLightKind::Positional(p) => p,
            },
            positional: match light.kind {
                SimpleLightKind::Directional(_) => 0,
                SimpleLightKind::Positional(_) => 1,
            },
            constant: light.attenuation.constant,
            linear: light.attenuation.linear,
            quadratic: light.attenuation.quadratic,
        }
    }

    /// Flattens a simple light for the light storage buffer.
    pub fn from_light(light: &SimpleLight) -> (r: SimpleLightRaw)
        ensures
            r == SimpleLightRaw::spec_from(*light),
    {
        let (position_or_direction, positional) = match light.kind {
            SimpleLightKind::Directional(d) => (d, 0),
            SimpleLightKind::Positional(p) => (p, 1),
        };
        SimpleLightRaw {
            color: light.color,
            position_or_direction,
            positional,
            constant: light.attenuation.constant,
            linear: light.attenuation.linear,
            quadratic: light.attenuation.quadratic,
        }
    }
}

/// How many slots of the pool are live.
pub open spec fn active_count(s: Seq<RealLight>) -> int
    decreases s.len(),
{
    if s.len() == 0 {
        0
    } else {
        active_count(s.drop_last()) + if s.last().active {
            1int
        } else {
            0int
        }
    }
}

/// What one slot contributes to the pool's live data: its public data if it
/// is live, nothing otherwise.
pub open spec fn light_contribution(l: RealLight) -> Multiset<RealLightPublic> {
    if l.active {
        Multiset::empty().insert(l.pub_data())
    } else {
        Multiset::empty()
    }
}

/// The multiset of public data of all live slots. Stated as a multiset
/// because slot order and slot indices may change while the set of lights
/// does not.
pub open spec fn active_datas(s: Seq<RealLight>) -> Multiset<RealLightPublic>
    decreases s.len(),
{
    if s.len() == 0 {
        Multiset::empty()
    } else {
        active_datas(s.drop_last()).add(light_contribution(s.last()))
    }
}

/// Appending a slot adds its contribution to the live count.
pub proof fn lemma_active_count_push(s: Seq<RealLight>, l: RealLight)
    ensures
        active_count(s.push(l)) == active_count(s) + if l.active {
            1int
        } else {
            0int
        },
{
    assert(s.push(l).drop_last() =~= s);
}

/// Appending a slot adds its contribution to the live data.
pub proof fn lemma_active_datas_push(s: Seq<RealLight>, l: RealLight)
    ensures
        active_datas(s.push(l)) == active_datas(s).add(light_contribution(l)),
{
    assert(s.push(l).drop_last() =~= s);
}

/// Replacing slot `i` trades its old contribution to the live count for the
/// new one.
pub proof fn lemma_active_count_update(s: Seq<RealLight>, i: int, l: RealLight)
    requires
        0 <= i < s.len(),
    ensures
        active_count(s.update(i, l)) == active_count(s) - (if s[i].active {
            1int
        } else {
            0int
        }) + (if l.active {
            1int
        } else {
            0int
        }),
    decreases s.len(),
{
    if i == s.len() - 1 {
        assert(s.update(i, l).drop_last() =~= s.drop_last());
    } else {
        assert(s.update(i, l).drop_last() =~= s.drop_last().update(i, l));
        lemma_active_count_update(s.drop_last(), i, l);
    }
}

/// Replacing slot `i` trades its old contribution to the live data for the
/// new one.
pub proof fn lemma_active_datas_update(s: Seq<RealLight>, i: int, l: RealLight)
    requires
        0 <= i < s.len(),
    ensures
        active_datas(s.update(i, l)).add(light_contribution(s[i])) == active_datas(s).add(
            light_contribution(l),
        ),
    decreases s.len(),
{
    if i == s.len() - 1 {
        assert(s.update(i, l).drop_last() =~= s.drop_last());
        assert(active_datas(s.update(i, l)).add(light_contribution(s[i])) =~= active_datas(s).add(
            light_contribution(l),
        ));
    } else {
        assert(s.update(i, l).drop_last() =~= s.drop_last().update(i, l));
        lemma_active_datas_update(s.drop_last(), i, l);
        assert(s.drop_last()[i] == s[i]);
        assert(s.update(i, l).last() == s.last());
        let a = active_datas(s.drop_last().update(i, l));
        let b = active_datas(s.drop_last());
        let cl = light_contribution(l);
        let ci = light_contribution(s[i]);
        let clast = light_contribution(s.last());
        assert(active_datas(s.update(i, l)) == a.add(clast));
        assert(active_datas(s) == b.add(clast));
        assert forall|x: RealLightPublic|
            a.add(clast).add(ci).count(x) == b.add(clast).add(cl).count(x) by {
            assert(a.add(ci).count(x) == b.add(cl).count(x));
        }
        assert(a.add(clast).add(ci) =~= b.add(clast).add(cl));
    }
}

/// Two shadow-map resolutions are the same size.
pub open spec fn res_eq(a: [u32; 2], b: [u32; 2]) -> bool {
    a@[0] == b@[0] && a@[1] == b@[1]
}

/// The latest inactive slot whose render target already has resolution
/// `res`: re-activating it needs no new shadow target.
pub open spec fn reuse_candidate(s: Seq<RealLight>, res: [u32; 2]) -> Option<int>
    decreases s.len(),
{
    if s.len() == 0 {
        None
    } else if !s.last().active && res_eq(s.last().resolution, res) {
        Some(s.len() - 1)
    } else {
        reuse_candidate(s.drop_last(), res)
    }
}

/// The latest inactive slot whose render target has another resolution:
/// re-activating it means recreating its shadow target.
pub open spec fn overwrite_candidate(s: Seq<RealLight>, res: [u32; 2]) -> Option<int>
    decreases s.len(),
{
    if s.len() == 0 {
        None
    } else if !s.last().active && !res_eq(s.last().resolution, res) {
        Some(s.len() - 1)
    } else {
        overwrite_candidate(s.drop_last(), res)
    }
}

/// What the candidate scan yields: a returned index is an inactive slot with
/// the stated resolution, and when both scans come back empty every slot is
/// active.
pub proof fn lemma_candidate_props(s: Seq<RealLight>, res: [u32; 2])
    ensures
        match reuse_candidate(s, res) {
            Some(i) => 0 <= i < s.len() && !s[i].active && res_eq(s[i].resolution, res),
            None => forall|j: int|
                0 <= j < s.len() && !s[j].active ==> !res_eq(s[j].resolution, res),
        },
        match overwrite_candidate(s, res) {
            Some(i) => 0 <= i < s.len() && !s[i].active && !res_eq(s[i].resolution, res),
            None => forall|j: int|
                0 <= j < s.len() && !s[j].active ==> res_eq(s[j].resolution, res),
        },
    decreases s.len(),
{
    if s.len() > 0 {
        lemma_candidate_props(s.drop_last(), res);
        assert(forall|j: int| 0 <= j < s.len() - 1 ==> s.drop_last()[j] == s[j]);
    }
}

/// Law of reuse preference: when exactly one inactive slot matches the
/// pool's resolution, the candidate scan selects that very slot — and a
/// successful `add_real_light` then, by its contract, returns exactly this
/// index and leaves the slot's shadow target (resolution and layer) alone,
/// so no target is recreated.
pub proof fn lemma_reuse_candidate_unique(s: Seq<RealLight>, res: [u32; 2], i: int)
    requires
        0 <= i < s.len(),
        !s[i].active,
        res_eq(s[i].resolution, res),
        forall|j: int|
            0 <= j < s.len() && j != i && !s[j].active ==> !res_eq(s[j].resolution, res),
    ensures
        reuse_candidate(s, res) == Some(i),
    decreases s.len(),
{
    assert(forall|j: int| 0 <= j < s.len() - 1 ==> s.drop_last()[j] == s[j]);
    if i != s.len() - 1 {
        lemma_reuse_candidate_unique(s.drop_last(), res, i);
    }
}

/// The live count lies between zero and the slot count.
pub proof fn lemma_active_count_le_len(s: Seq<RealLight>)
    ensures
        0 <= active_count(s) <= s.len(),
    decreases s.len(),
{
    if s.len() > 0 {
        lemma_active_count_le_len(s.drop_last());
    }
}

/// With every slot live, the live count is the slot count.
pub proof fn lemma_active_count_all_active(s: Seq<RealLight>)
    requires
        forall|j: int| 0 <= j < s.len() ==> (#[trigger] s[j]).active,
    ensures
        active_count(s) == s.len(),
    decreases s.len(),
{
    if s.len() > 0 {
        assert(forall|j: int| 0 <= j < s.len() - 1 ==> s.drop_last()[j] == s[j]);
        lemma_active_count_all_active(s.drop_last());
    }
}

/// The pool slot that activating the given public light data in a slot with
/// the given resolution and layer produces.
pub open spec fn slot_from_public(
    light: RealLightPublic,
    resolution: [u32; 2],
    layer: u32,
) -> RealLight {
    RealLight {
        camera: light.camera,
        color: light.color,
        default: light.default,
        constant: light.attenuation.constant,
        linear: light.attenuation.linear,
        quadratic: light.attenuation.quadratic,
        active: true,
        resolution,
        layer,
    }
}

/// Law of bounded capacity: a well-formed renderer never holds more live
/// shadow-casting lights than its configured maximum (and adding one more at
/// the maximum fails, by the contract of `add_real_light`).
pub proof fn lemma_capacity_invariant(r: WgpuRenderer)
    requires
        r.wf(),
    ensures
        active_count(r.real_lights@) <= r.max_real_lights as int,
{
}

impl WgpuRenderer {
    /// Adds a shadow-casting light. Fails when the pool already holds the
    /// maximum number of live lights. Otherwise the light goes, in order of
    /// preference, into an inactive slot whose shadow target already has the
    /// pool's resolution (reuse: no GPU churn), into any inactive slot (its
    /// shadow target is recreated at the pool's resolution), or into a fresh
    /// slot appended to the pool, owning the next texture layer. The returned
    /// index addresses the light until it is removed.
    pub fn add_real_light(&mut self, light: RealLightPublic) -> (r: Result<usize, String>)
        requires
            old(self).wf(),
        ensures
            final(self).wf(),
            *final(self) == (WgpuRenderer {
                real_lights: final(self).real_lights,
                ..*old(self)
            }),
            r is Err <==> active_count(old(self).real_lights@) >= old(self).max_real_lights as int,
            r is Err ==> final(self).real_lights == old(self).real_lights && r->Err_0@
                == "maximum number of lights reached"@,
            r matches Ok(ix) ==> {
                let s = old(self).real_lights@;
                let res = old(self).shadow_resolution;
                match reuse_candidate(s, res) {
                    Some(c) => ix == c && final(self).real_lights@ == s.update(
                        c,
                        slot_from_public(light, s[c].resolution, s[c].layer),
                    ),
                    None => match overwrite_candidate(s, res) {
                        Some(c) => ix == c && final(self).real_lights@ == s.update(
                            c,
                            slot_from_public(light, res, s[c].layer),
                        ),
                        None => ix == s.len() && final(self).real_lights@ == s.push(
                            slot_from_public(light, res, s.len() as u32),
                        ),
                    },
                }
            },
            r is Ok ==> active_count(final(self).real_lights@) == active_count(
                old(self).real_lights@,
            ) + 1,
            r is Ok ==> active_datas(final(self).real_lights@) == active_datas(
                old(self).real_lights@,
            ).insert(light),
    {
        let n = self.real_lights.len();
        let res = self.shadow_resolution;

        let mut count: usize = 0;
        let mut i: usize = 0;
        while i < n
            invariant
                i <= n,
                n == self.real_lights@.len(),
                *self == *old(self),
                count == active_count(self.real_lights@.subrange(0, i as int)),
                count <= i,
            decreases n - i,
        {
            proof {
                let s = self.real_lights@;
                assert(s.subrange(0, i as int + 1).drop_last() =~= s.subrange(0, i as int));
                assert(s.subrange(0, i as int + 1).last() == s[i as int]);
            }
            if self.real_lights[i].active {
                count += 1;
            }
            i += 1;
        }
        proof {
            assert(self.real_lights@.subrange(0, n as int) =~= self.real_lights@);
        }

        if count >= self.max_real_lights as usize {
            return Err("maximum number of lights reached".to_string());
        }

        let mut reuse: Option<usize> = None;
        let mut overwrite: Option<usize> = None;
        let mut i: usize = 0;
        while i < n
            invariant
                i <= n,
                n == self.real_lights@.len(),
                *self == *old(self),
                res == self.shadow_resolution,
                reuse_candidate(self.real_lights@.subrange(0, i as int), res) == match reuse {
                    Some(u) => Some(u as int),
                    None => None::<int>,
                },
                overwrite_candidate(self.real_lights@.subrange(0, i as int), res) == match
                    overwrite {
                    Some(u) => Some(u as int),
                    None => None::<int>,
                },
            decreases n - i,
        {
            proof {
                let s = self.real_lights@;
                assert(s.subrange(0, i as int + 1).drop_last() =~= s.subrange(0, i as int));
                assert(s.subrange(0, i as int + 1).last() == s[i as int]);
            }
            let l = &self.real_lights[i];
            if !l.active {
                if l.resolution[0] == res[0] && l.resolution[1] == res[1] {
                    reuse = Some(i);
                } else {
                    overwrite = Some(i);
                }
            }
            i += 1;
        }
        proof {
            assert(self.real_lights@.subrange(0, n as int) =~= self.real_lights@);
            lemma_candidate_props(self.real_lights@, res);
            lemma_active_count_le_len(self.real_lights@);
        }

        let ghost s = self.real_lights@;
        if let Some(c) = reuse {
            let new_slot = RealLight {
                camera: light.camera,
                color: light.color,
                default: light.default,
                constant: light.attenuation.constant,
                linear: light.attenuation.linear,
                quadratic: light.attenuation.quadratic,
                active: true,
                resolution: self.real_lights[c].resolution,
                layer: self.real_lights[c].layer,
            };
            self.real_lights[c] = new_slot;
            proof {
                lemma_active_count_update(s, c as int, new_slot);
                lemma_active_datas_update(s, c as int, new_slot);
                assert(light_contribution(s[c as int]) =~= Multiset::<RealLightPublic>::empty());
                assert(active_datas(self.real_lights@).add(Multiset::<RealLightPublic>::empty())
                    =~= active_datas(self.real_lights@));
                assert(active_datas(self.real_lights@) =~= active_datas(s).insert(light));
            }
            Ok(c)
        } else if let Some(c) = overwrite {
            let new_slot = RealLight {
                camera: light.camera,
                color: light.color,
                default: light.default,
                constant: light.attenuation.constant,
                linear: light.attenuation.linear,
                quadratic: light.attenuation.quadratic,
                active: true,
                resolution: res,
                layer: self.real_lights[c].layer,
            };
            self.real_lights[c] = new_slot;
            proof {
                lemma_active_count_update(s, c as int, new_slot);
                lemma_active_datas_update(s, c as int, new_slot);
                assert(light_contribution(s[c as int]) =~= Multiset::<RealLightPublic>::empty());
                assert(active_datas(self.real_lights@).add(Multiset::<RealLightPublic>::empty())
                    =~= active_datas(self.real_lights@));
                assert(active_datas(self.real_lights@) =~= active_datas(s).insert(light));
            }
            Ok(c)
        } else {
            proof {
                assert(forall|j: int| 0 <= j < s.len() ==> (#[trigger] s[j]).active) by {
                    assert(forall|j: int|
                        0 <= j < s.len() && !(#[trigger] s[j]).active ==> !res_eq(
                            s[j].resolution,
                            res,
                        ) && res_eq(s[j].resolution, res));
                }
                lemma_active_count_all_active(s);
            }
            let new_slot = RealLight {
                camera: light.camera,
                color: light.color,
                default: light.default,
                constant: light.attenuation.constant,
                linear: light.attenuation.linear,
                quadratic: light.attenuation.quadratic,
                active: true,
                resolution: res,
                layer: n as u32,
            };
            self.real_lights.push(new_slot);
            proof {
                lemma_active_count_push(s, new_slot);
                lemma_active_datas_push(s, new_slot);
                assert(active_datas(self.real_lights@) =~= active_datas(s).insert(light));
            }
            Ok(n)
        }
    }

    /// Soft-deletes the light at `light`: the slot goes inactive (invisible
    /// to lookups, skipped by the shadow phase) but stays allocated, so a
    /// later add may reuse it. Out-of-range indices are ignored.
    pub fn remove_real_light(&mut self, light: usize)
        requires
            old(self).wf(),
        ensures
            final(self).wf(),
            *final(self) == (WgpuRenderer {
                real_lights: final(self).real_lights,
                ..*old(self)
            }),
            final(self).real_lights@ == if light < old(self).real_lights@.len() {
                old(self).real_lights@.update(
                    light as int,
                    RealLight { active: false, ..old(self).real_lights@[light as int] },
                )
            } else {
                old(self).real_lights@
            },
    {
        let n = self.real_lights.len();
        if light < n {
            let ghost s = self.real_lights@;
            let slot = &self.real_lights[light];
            let new_slot = RealLight { active: false, ..*slot };
            self.real_lights[light] = new_slot;
            proof {
                lemma_active_count_update(s, light as int, new_slot);
            }
        }
    }

    /// Looks the light at `light` up: its public data when the slot exists
    /// and is live, absent otherwise (removed-but-not-compacted slots are
    /// invisible).
    pub fn get_real_light(&self, light: usize) -> (r: Option<RealLightPublic>)
        ensures
            r == if light < self.real_lights@.len() && self.real_lights@[light as int].active {
                Some(self.real_lights@[light as int].pub_data())
            } else {
                None::<RealLightPublic>
            },
    {
        if light >= self.real_lights.len() {
            return None;
        }
        let l = &self.real_lights[light];
        if l.active {
            Some(
                RealLightPublic {
                    camera: l.camera,
                    color: l.color,
                    default: l.default,
                    attenuation: LightAttenuation {
                        constant: l.constant,
                        linear: l.linear,
                        quadratic: l.quadratic,
                    },
                },
            )
        } else {
            None
        }
    }

    /// Overwrites the mutable fields (camera, color, baseline) of the light
    /// at `light`. Attenuation is fixed at creation and not touched. A no-op
    /// when the slot is out of range or inactive.
    pub fn set_real_light(&mut self, light: usize, v: RealLightPublic)
        requires
            old(self).wf(),
        ensures
            final(self).wf(),
            *final(self) == (WgpuRenderer {
                real_lights: final(self).real_lights,
                ..*old(self)
            }),
            final(self).real_lights@ == if light < old(self).real_lights@.len() && old(self).real_lights@[light as int].active {
                old(self).real_lights@.update(
                    light as int,
                    RealLight {
                        camera: v.camera,
                        color: v.color,
                        default: v.default,
                        ..old(self).real_lights@[light as int]
                    },
                )
            } else {
                old(self).real_lights@
            },
    {
        let n = self.real_lights.len();
        if light < n {
            let ghost s = self.real_lights@;
            let slot = &self.real_lights[light];
            if slot.active {
                let new_slot = RealLight {
                    camera: v.camera,
                    color: v.color,
                    default: v.default,
                    ..*slot
                };
                self.real_lights[light] = new_slot;
                proof {
                    lemma_active_count_update(s, light as int, new_slot);
                }
            }
        }
    }

    /// Marks the light buffer dirty: the next rendered frame rewrites every
    /// slot's record into the light storage buffer before the passes run.
    pub fn update_real_lights(&mut self)
        ensures
            *final(self) == (WgpuRenderer { lights_are_dirty: true, ..*old(self) }),
    {
        self.lights_are_dirty = true;
    }

    /// Changes the shadow-map resolution. The pooled layered shadow texture
    /// is rebuilt at the new size (by the application, which reads
    /// `shadow_resolution`), so every live light is removed and re-added,
    /// re-deriving its shadow target; slot indices may move, but the set of
    /// live lights — their count and their public data — is preserved, and
    /// afterwards every live slot's target has the new resolution.
    pub fn set_shadow_resolution(&mut self, res: [u32; 2])
        requires
            old(self).wf(),
        ensures
            final(self).wf(),
            *final(self) == (WgpuRenderer {
                real_lights: final(self).real_lights,
                shadow_resolution: res,
                ..*old(self)
            }),
            final(self).real_lights@.len() == old(self).real_lights@.len(),
            active_count(final(self).real_lights@) == active_count(old(self).real_lights@),
            active_datas(final(self).real_lights@) == active_datas(old(self).real_lights@),
            forall|j: int|
                0 <= j < final(self).real_lights@.len()
                    && (#[trigger] final(self).real_lights@[j]).active
                    ==> res_eq(final(self).real_lights@[j].resolution, res),
    {
        self.shadow_resolution = res;
        let n = self.real_lights.len();
        let mut i: usize = 0;
        while i < n
            invariant
                i <= n,
                self.wf(),
                n == self.real_lights@.len(),
                self.shadow_resolution == res,
                active_count(self.real_lights@) == active_count(old(self).real_lights@),
                active_datas(self.real_lights@) == active_datas(old(self).real_lights@),
                forall|j: int|
                    0 <= j < n && (#[trigger] self.real_lights@[j]).active ==> res_eq(
                        self.real_lights@[j].resolution,
                        res,
                    ) || j >= i,
                *self == (WgpuRenderer {
                    real_lights: self.real_lights,
                    shadow_resolution: res,
                    ..*old(self)
                }),
            decreases n - i,
        {
            if let Some(d) = self.get_real_light(i) {
                let ghost s0 = self.real_lights@;
                self.remove_real_light(i);
                let ghost s1 = self.real_lights@;
                proof {
                    let removed = RealLight { active: false, ..s0[i as int] };
                    lemma_active_count_update(s0, i as int, removed);
                    lemma_active_datas_update(s0, i as int, removed);
                    assert(light_contribution(removed) =~= Multiset::<RealLightPublic>::empty());
                    assert(active_datas(s1).add(Multiset::<RealLightPublic>::empty()) =~=
                        active_datas(s1));
                    lemma_active_count_le_len(s1);
                    lemma_candidate_props(s1, res);
                    if reuse_candidate(s1, res) is None && overwrite_candidate(s1, res) is None {
                        assert(!s1[i as int].active);
                        assert(!res_eq(s1[i as int].resolution, res));
                        assert(res_eq(s1[i as int].resolution, res));
                        assert(false);
                    }
                }
                let added = self.add_real_light(d);
                proof {
                    let s2 = self.real_lights@;
                    assert(added is Ok);
                    assert(active_datas(s2) == active_datas(s1).insert(d));
                    assert(active_datas(s1).insert(d) =~= active_datas(s1).add(
                        light_contribution(s0[i as int]),
                    ));
                    assert(active_datas(s2) == active_datas(old(self).real_lights@));
                }
            }
            i += 1;
        }
    }
}

} // verus!
