use std::collections::HashSet;

use vstd::prelude::*;

use crate::viewport::Playback;

verus! {

/// Which parts of the scene recompile the shader with only the directives
/// they need; the others always compile with all their directives.
#[derive(Clone, Copy, Debug, PartialEq, Eq, Structural)]
pub struct CompilerSettings {
    pub enable_dynamic_recompilation_for_ray_marcher: bool,
    pub enable_dynamic_recompilation_for_primitives: bool,
    pub enable_dynamic_recompilation_for_materials: bool,
    pub enable_dynamic_recompilation_for_lights: bool,
}

/// The shader preprocessor directives, by id, that each part of the scene
/// asks for: all those of a kind of part, and those of the parts at hand.
/// `for_primitive_materials` and `for_primitives` hold one entry per
/// primitive of the scene, `for_lights` one per light.
#[derive(Clone, Debug)]
pub struct DirectiveSources {
    pub all_for_ray_marcher: Vec<u64>,
    pub for_ray_marcher: Vec<u64>,
    pub all_for_primitive: Vec<u64>,
    pub all_for_material: Vec<u64>,
    pub for_atmosphere: Vec<u64>,
    pub all_for_light: Vec<u64>,
    pub for_lights: Vec<Vec<u64>>,
    pub for_primitive_materials: Vec<Vec<u64>>,
    pub for_primitives: Vec<Vec<u64>>,
}

pub open spec fn spec_views(v: Seq<Vec<u64>>) -> Seq<Seq<u64>> {
    v.map_values(|x: Vec<u64>| x@)
}

impl DirectiveSources {
    pub open spec fn wf(&self) -> bool {
        self.for_primitive_materials@.len() == self.for_primitives@.len()
    }

    /// The directives the primitive at index `i` asks for.
    pub open spec fn spec_primitive_directives(&self, settings: CompilerSettings, i: int) -> Seq<u64> {
        (if settings.enable_dynamic_recompilation_for_materials {
            self.for_primitive_materials@[i]@
        } else {
            Seq::empty()
        }) + (if settings.enable_dynamic_recompilation_for_primitives {
            self.for_primitives@[i]@
        } else {
            Seq::empty()
        })
    }

    /// The directives the shader is compiled with, in the order they are
    /// gathered: each part either all of its kind's directives, when it is
    /// not recompiled dynamically, or those of the parts at hand.
    pub open spec fn spec_directive_list(&self, settings: CompilerSettings) -> Seq<u64> {
        let ray_marcher = if !settings.enable_dynamic_recompilation_for_ray_marcher {
            self.all_for_ray_marcher@
        } else {
            self.for_ray_marcher@
        };
        let primitive = if !settings.enable_dynamic_recompilation_for_primitives {
            self.all_for_primitive@
        } else {
            Seq::empty()
        };
        let material = if !settings.enable_dynamic_recompilation_for_materials {
            self.all_for_material@
        } else {
            self.for_atmosphere@
        };
        let light = if !settings.enable_dynamic_recompilation_for_lights {
            self.all_for_light@
        } else {
            spec_views(self.for_lights@).flatten()
        };
        let per_primitive = if settings.enable_dynamic_recompilation_for_primitives
            || settings.enable_dynamic_recompilation_for_materials {
            Seq::new(
                self.for_primitives@.len(),
                |i: int| self.spec_primitive_directives(settings, i),
            ).flatten()
        } else {
            Seq::empty()
        };
        ray_marcher + primitive + material + light + per_primitive
    }

    /// The set of directives the shader is compiled with.
    pub open spec fn spec_directives(&self, settings: CompilerSettings) -> Set<u64> {
        self.spec_directive_list(settings).to_set()
    }
}

/// Adds every element of `items` to `set` and to `list`.
fn extend(set: &mut HashSet<u64>, list: &mut Vec<u64>, items: &Vec<u64>)
    requires
        old(set)@ == old(list)@.to_set(),
    ensures
        final(list)@ == old(list)@ + items@,
        final(set)@ == final(list)@.to_set(),
{
    broadcast use vstd::std_specs::hash::group_hash_axioms;
    broadcast use vstd::seq_lib::group_seq_properties;

    let ghost start = list@;
    let mut i: usize = 0;
    while i < items.len()
        invariant
            i <= items@.len(),
            list@ == start + items@.subrange(0, i as int),
            set@ == list@.to_set(),
        decreases items@.len() - i,
    {
        let x = items[i];
        set.insert(x);
        let ghost before = list@;
        list.push(x);
        assert forall|y: u64| list@.to_set().contains(y) <==> before.to_set().insert(x).contains(
            y,
        ) by {
            if y == x {
                assert(list@[list@.len() - 1] == x);
            }
            if before.contains(y) {
                let k = choose|k: int| 0 <= k < before.len() && before[k] == y;
                assert(list@[k] == y);
            }
            if list@.contains(y) && y != x {
                let k = choose|k: int| 0 <= k < list@.len() && list@[k] == y;
                assert(before[k] == y);
            }
        }
        assert(list@.to_set() =~= before.to_set().insert(x));
        assert(start + items@.subrange(0, i + 1) =~= (start + items@.subrange(0, i as int)).push(x));
        i = i + 1;
    }
    assert(items@.subrange(0, items@.len() as int) =~= items@);
}

} // verus!

verus! {

/// Gathers the directives the shader is compiled with.
pub fn gather_directives(settings: &CompilerSettings, sources: &DirectiveSources) -> (r: (
    HashSet<u64>,
    Vec<u64>,
))
    requires
        sources.wf(),
    ensures
        r.1@ == sources.spec_directive_list(*settings),
        r.0@ == r.1@.to_set(),
{
    let mut set: HashSet<u64> = HashSet::new();
    let mut list: Vec<u64> = Vec::new();
    assert(list@.to_set() =~= Set::<u64>::empty());
    if !settings.enable_dynamic_recompilation_for_ray_marcher {
        extend(&mut set, &mut list, &sources.all_for_ray_marcher);
    } else {
        extend(&mut set, &mut list, &sources.for_ray_marcher);
    }
    if !settings.enable_dynamic_recompilation_for_primitives {
        extend(&mut set, &mut list, &sources.all_for_primitive);
    } else {
        assert(list@ + Seq::<u64>::empty() =~= list@);
    }
    if !settings.enable_dynamic_recompilation_for_materials {
        extend(&mut set, &mut list, &sources.all_for_material);
    } else {
        extend(&mut set, &mut list, &sources.for_atmosphere);
    }
    if !settings.enable_dynamic_recompilation_for_lights {
        extend(&mut set, &mut list, &sources.all_for_light);
    } else {
        let ghost base = list@;
        let mut i: usize = 0;
        while i < sources.for_lights.len()
            invariant
                i <= sources.for_lights@.len(),
                list@ == base + spec_views(sources.for_lights@.subrange(0, i as int)).flatten(),
                set@ == list@.to_set(),
            decreases sources.for_lights@.len() - i,
        {
            extend(&mut set, &mut list, &sources.for_lights[i]);
            let ghost lights = sources.for_lights@;
            assert(spec_views(lights.subrange(0, i + 1)) =~= spec_views(lights.subrange(0, i as int)).push(
                lights[i as int]@,
            ));
            proof {
                spec_views(lights.subrange(0, i as int)).lemma_flatten_push(lights[i as int]@);
            }
            i = i + 1;
        }
        assert(sources.for_lights@.subrange(0, sources.for_lights@.len() as int)
            =~= sources.for_lights@);
    }
    if settings.enable_dynamic_recompilation_for_primitives
        || settings.enable_dynamic_recompilation_for_materials {
        let ghost base = list@;
        let ghost f = |k: int| sources.spec_primitive_directives(*settings, k);
        let mut i: usize = 0;
        while i < sources.for_primitives.len()
            invariant
                sources.wf(),
                i <= sources.for_primitives@.len(),
                f == (|k: int| sources.spec_primitive_directives(*settings, k)),
                list@ == base + Seq::new(i as nat, f).flatten(),
                set@ == list@.to_set(),
            decreases sources.for_primitives@.len() - i,
        {
            let ghost before = list@;
            if settings.enable_dynamic_recompilation_for_materials {
                extend(&mut set, &mut list, &sources.for_primitive_materials[i]);
            }
            if settings.enable_dynamic_recompilation_for_primitives {
                extend(&mut set, &mut list, &sources.for_primitives[i]);
            }
            assert(list@ =~= before + f(i as int));
            assert(Seq::new((i + 1) as nat, f) =~= Seq::new(i as nat, f).push(f(i as int)));
            proof {
                Seq::new(i as nat, f).lemma_flatten_push(f(i as int));
            }
            i = i + 1;
        }
    } else {
        assert(list@ + Seq::<u64>::empty() =~= list@);
    }
    (set, list)
}

/// The part of the ray marcher's render pipeline that follows the shader's
/// preprocessor directives, with the playback of its view.
#[derive(Debug)]
pub struct RayMarcherPipeline {
    pub preprocessor_directives: HashSet<u64>,
    pub playback: Playback,
}

impl RayMarcherPipeline {
    /// Gathers the directives the shader needs and stores them when they
    /// differ from the current ones; the result says whether they did, that
    /// is whether the shader must be recompiled.
    pub fn update_preprocessor_directives(
        &mut self,
        settings: &CompilerSettings,
        sources: &DirectiveSources,
    ) -> (changed: bool)
        requires
            sources.wf(),
        ensures
            changed == (sources.spec_directives(*settings) != old(self).preprocessor_directives@),
            final(self).preprocessor_directives@ == sources.spec_directives(*settings),
            final(self).playback == old(self).playback,
    {
        broadcast use vstd::std_specs::hash::group_hash_axioms;
        broadcast use vstd::seq_lib::group_seq_properties;

        let (directives, list) = gather_directives(settings, sources);
        let mut same = directives.len() == self.preprocessor_directives.len();
        let mut i: usize = 0;
        while same && i < list.len()
            invariant
                i <= list@.len(),
                directives@ == list@.to_set(),
                same ==> forall|j: int|
                    0 <= j < i ==> self.preprocessor_directives@.contains(#[trigger] list@[j]),
                same ==> directives@.len() == self.preprocessor_directives@.len(),
                !same ==> directives@ != self.preprocessor_directives@,
            decreases list@.len() - i,
        {
            if !self.preprocessor_directives.contains(&list[i]) {
                assert(directives@.contains(list@[i as int]));
                same = false;
            }
            i = i + 1;
        }
        if same {
            assert(directives@.subset_of(self.preprocessor_directives@)) by {
                assert forall|x: u64| directives@.contains(x) implies self.preprocessor_directives@.contains(x) by {
                    let k = choose|k: int| 0 <= k < list@.len() && list@[k] == x;
                }
            }
            proof {
                let keys = vstd::std_specs::iter::IteratorSpec::remaining(
                    &vstd::std_specs::hash::spec_hash_keys_iter(&self.preprocessor_directives),
                ).unref();
                assert(keys.to_set() == self.preprocessor_directives@);
                vstd::seq_lib::seq_to_set_is_finite(keys);
                vstd::seq_lib::seq_to_set_is_finite(list@);
                vstd::set_lib::lemma_subset_equality(directives@, self.preprocessor_directives@);
            }
            assert(directives@ == self.preprocessor_directives@);
            false
        } else {
            self.preprocessor_directives = directives;
            true
        }
    }
}

/// The render pipelines a view can use.
pub enum RenderPipelines {
    RayMarcher { render_pipeline: Option<RayMarcherPipeline> },
    Texture,
}

impl RenderPipelines {
    /// Updates the preprocessor directives of a ray marcher's pipeline;
    /// the result says whether its shader must be recompiled. Other
    /// pipelines have no directives.
    pub fn update_preprocessor_directives(
        &mut self,
        settings: &CompilerSettings,
        sources: &DirectiveSources,
    ) -> (changed: bool)
        requires
            sources.wf(),
        ensures
            match *old(self) {
                RenderPipelines::RayMarcher { render_pipeline: Some(p) } => match *final(self) {
                    RenderPipelines::RayMarcher { render_pipeline: Some(q) } => {
                        &&& changed == (sources.spec_directives(*settings)
                            != p.preprocessor_directives@)
                        &&& q.preprocessor_directives@ == sources.spec_directives(*settings)
                        &&& q.playback == p.playback
                    },
                    _ => false,
                },
                _ => !changed && *final(self) == *old(self),
            },
    {
        match self {
            RenderPipelines::RayMarcher { render_pipeline: Some(pipeline) } => {
                pipeline.update_preprocessor_directives(settings, sources)
            },
            _ => false,
        }
    }
}

} // verus!

verus! {

proof fn lemma_flatten_contains(ss: Seq<Seq<u64>>, i: int, d: u64)
    requires
        0 <= i < ss.len(),
        ss[i].contains(d),
    ensures
        ss.flatten().contains(d),
    decreases ss.len(),
{
    let rest = ss.drop_first().flatten();
    if i == 0 {
        let k = choose|k: int| 0 <= k < ss[0].len() && ss[0][k] == d;
        assert((ss.first() + rest)[k] == d);
    } else {
        assert(ss.drop_first()[i - 1] == ss[i]);
        lemma_flatten_contains(ss.drop_first(), i - 1, d);
        let k = choose|k: int| 0 <= k < rest.len() && rest[k] == d;
        assert((ss.first() + rest)[ss.first().len() + k] == d);
    }
}

proof fn lemma_list_contains(list: Seq<u64>, d: u64)
    requires
        list.contains(d),
    ensures
        list.to_set().contains(d),
{
}

/// With no part recompiled dynamically, the shader's directives are those
/// of every kind of part, whatever the scene holds.
pub proof fn lemma_static_directives_ignore_scene(
    settings: CompilerSettings,
    a: DirectiveSources,
    b: DirectiveSources,
)
    requires
        !settings.enable_dynamic_recompilation_for_ray_marcher,
        !settings.enable_dynamic_recompilation_for_primitives,
        !settings.enable_dynamic_recompilation_for_materials,
        !settings.enable_dynamic_recompilation_for_lights,
        a.all_for_ray_marcher@ == b.all_for_ray_marcher@,
        a.all_for_primitive@ == b.all_for_primitive@,
        a.all_for_material@ == b.all_for_material@,
        a.all_for_light@ == b.all_for_light@,
    ensures
        a.spec_directives(settings) == b.spec_directives(settings),
{
    assert(a.spec_directive_list(settings) =~= b.spec_directive_list(settings));
}

/// When lights are recompiled dynamically, the shader holds every directive
/// that any light of the scene asks for.
pub proof fn lemma_light_directives_included(
    settings: CompilerSettings,
    sources: DirectiveSources,
    i: int,
    d: u64,
)
    requires
        settings.enable_dynamic_recompilation_for_lights,
        0 <= i < sources.for_lights@.len(),
        sources.for_lights@[i]@.contains(d),
    ensures
        sources.spec_directives(settings).contains(d),
{
    let lights = spec_views(sources.for_lights@);
    assert(lights[i] == sources.for_lights@[i]@);
    lemma_flatten_contains(lights, i, d);
    let list = sources.spec_directive_list(settings);
    let k = choose|k: int| 0 <= k < lights.flatten().len() && lights.flatten()[k] == d;
    let ray_marcher = if !settings.enable_dynamic_recompilation_for_ray_marcher {
        sources.all_for_ray_marcher@
    } else {
        sources.for_ray_marcher@
    };
    let primitive = if !settings.enable_dynamic_recompilation_for_primitives {
        sources.all_for_primitive@
    } else {
        Seq::empty()
    };
    let material = if !settings.enable_dynamic_recompilation_for_materials {
        sources.all_for_material@
    } else {
        sources.for_atmosphere@
    };
    let offset = ray_marcher.len() + primitive.len() + material.len();
    assert(list[offset + k] == d);
    lemma_list_contains(list, d);
}

/// When primitives are recompiled dynamically, the shader holds every
/// directive that any primitive of the scene asks for.
pub proof fn lemma_primitive_directives_included(
    settings: CompilerSettings,
    sources: DirectiveSources,
    i: int,
    d: u64,
)
    requires
        sources.wf(),
        settings.enable_dynamic_recompilation_for_primitives,
        0 <= i < sources.for_primitives@.len(),
        sources.for_primitives@[i]@.contains(d),
    ensures
        sources.spec_directives(settings).contains(d),
{
    let per = Seq::new(
        sources.for_primitives@.len(),
        |j: int| sources.spec_primitive_directives(settings, j),
    );
    let own = sources.spec_primitive_directives(settings, i);
    assert(own.contains(d)) by {
        let k = choose|k: int|
            0 <= k < sources.for_primitives@[i]@.len() && sources.for_primitives@[i]@[k] == d;
        let first = if settings.enable_dynamic_recompilation_for_materials {
            sources.for_primitive_materials@[i]@
        } else {
            Seq::empty()
        };
        assert(own[first.len() + k] == d);
    }
    assert(per[i] == own);
    lemma_flatten_contains(per, i, d);
    let list = sources.spec_directive_list(settings);
    let tail = per.flatten();
    let k = choose|k: int| 0 <= k < tail.len() && tail[k] == d;
    assert(list.len() >= tail.len());
    assert(list[list.len() - tail.len() + k] == d);
    lemma_list_contains(list, d);
}

/// When materials are recompiled dynamically, the shader holds every
/// directive that the material of any primitive of the scene asks for,
/// whether or not primitives are recompiled dynamically.
pub proof fn lemma_material_directives_included(
    settings: CompilerSettings,
    sources: DirectiveSources,
    i: int,
    d: u64,
)
    requires
        sources.wf(),
        settings.enable_dynamic_recompilation_for_materials,
        0 <= i < sources.for_primitive_materials@.len(),
        sources.for_primitive_materials@[i]@.contains(d),
    ensures
        sources.spec_directives(settings).contains(d),
{
    let per = Seq::new(
        sources.for_primitives@.len(),
        |j: int| sources.spec_primitive_directives(settings, j),
    );
    let own = sources.spec_primitive_directives(settings, i);
    assert(own.contains(d)) by {
        let k = choose|k: int|
            0 <= k < sources.for_primitive_materials@[i]@.len()
                && sources.for_primitive_materials@[i]@[k] == d;
        assert(own[k] == d);
    }
    assert(per[i] == own);
    lemma_flatten_contains(per, i, d);
    let list = sources.spec_directive_list(settings);
    let tail = per.flatten();
    let k = choose|k: int| 0 <= k < tail.len() && tail[k] == d;
    assert(list.len() >= tail.len());
    assert(list[list.len() - tail.len() + k] == d);
    lemma_list_contains(list, d);
}

/// A pipeline that has just stored the directives of a scene is up to date:
/// updating it again with the same scene and settings asks for no
/// recompilation and keeps its directives.
pub proof fn lemma_update_is_settled(
    settings: CompilerSettings,
    sources: DirectiveSources,
    updated: RayMarcherPipeline,
)
    requires
        updated.preprocessor_directives@ == sources.spec_directives(settings),
    ensures
        !(sources.spec_directives(settings) != updated.preprocessor_directives@),
        updated.preprocessor_directives@ == sources.spec_directives(settings),
{
}

} // verus!
