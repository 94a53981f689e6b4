use vstd::prelude::*;
use vstd::string::StrSliceExecFns;

use super::ui_data::UIData;
use crate::text::str_eq;

verus! {

/// The kind of value held by a node input; one per variant of the value
/// types that the node graph offers.
#[derive(Clone, Copy, Debug, PartialEq, Eq, Structural)]
pub enum NodeValueKind {
    Bool,
    BVec3,
    ComboBox,
    Filepath,
    Integer,
    UnsignedInteger,
    UVec2,
    UVec3,
    Float,
    Vec2,
    Vec3,
    Vec4,
    Mat3,
    Mat4,
    Camera,
    Light,
    Material,
    Primitive,
    ProceduralTexture,
    RenderPass,
    Scene,
}

impl NodeValueKind {
    /// The kinds whose widget can be shown and hidden; the others always
    /// keep their visibility.
    pub open spec fn spec_toggles_visibility(self) -> bool {
        match self {
            NodeValueKind::Bool | NodeValueKind::BVec3 | NodeValueKind::ComboBox
            | NodeValueKind::Float | NodeValueKind::Integer | NodeValueKind::UnsignedInteger
            | NodeValueKind::UVec3 | NodeValueKind::Mat3 | NodeValueKind::Mat4
            | NodeValueKind::Vec3 | NodeValueKind::Vec4 => true,
            _ => false,
        }
    }

    pub fn toggles_visibility(&self) -> (b: bool)
        ensures
            b == self.spec_toggles_visibility(),
    {
        match self {
            NodeValueKind::Bool | NodeValueKind::BVec3 | NodeValueKind::ComboBox
            | NodeValueKind::Float | NodeValueKind::Integer | NodeValueKind::UnsignedInteger
            | NodeValueKind::UVec3 | NodeValueKind::Mat3 | NodeValueKind::Mat4
            | NodeValueKind::Vec3 | NodeValueKind::Vec4 => true,
            _ => false,
        }
    }
}

/// What the library holds of an input's value: booleans, integers and
/// texts as they are, and only the kind of a value of any other kind
/// (floats, vectors and matrices of floats, and the values of nodes).
#[derive(Clone, Debug)]
pub enum InputValue {
    Bool(bool),
    BVec3(bool, bool, bool),
    ComboBox(String),
    Filepath(String),
    Integer(i32),
    UnsignedInteger(u32),
    UVec2(u32, u32),
    UVec3(u32, u32, u32),
    Other(NodeValueKind),
}

/// A value was asked for as a kind it does not have.
#[derive(Clone, Copy, Debug, PartialEq, Eq, Structural)]
pub struct InvalidCast {
    pub from: NodeValueKind,
    pub to: NodeValueKind,
}

impl InputValue {
    pub open spec fn spec_kind(&self) -> NodeValueKind {
        match self {
            InputValue::Bool(..) => NodeValueKind::Bool,
            InputValue::BVec3(..) => NodeValueKind::BVec3,
            InputValue::ComboBox(..) => NodeValueKind::ComboBox,
            InputValue::Filepath(..) => NodeValueKind::Filepath,
            InputValue::Integer(..) => NodeValueKind::Integer,
            InputValue::UnsignedInteger(..) => NodeValueKind::UnsignedInteger,
            InputValue::UVec2(..) => NodeValueKind::UVec2,
            InputValue::UVec3(..) => NodeValueKind::UVec3,
            InputValue::Other(k) => *k,
        }
    }

    pub fn kind(&self) -> (k: NodeValueKind)
        ensures
            k == self.spec_kind(),
    {
        match self {
            InputValue::Bool(..) => NodeValueKind::Bool,
            InputValue::BVec3(..) => NodeValueKind::BVec3,
            InputValue::ComboBox(..) => NodeValueKind::ComboBox,
            InputValue::Filepath(..) => NodeValueKind::Filepath,
            InputValue::Integer(..) => NodeValueKind::Integer,
            InputValue::UnsignedInteger(..) => NodeValueKind::UnsignedInteger,
            InputValue::UVec2(..) => NodeValueKind::UVec2,
            InputValue::UVec3(..) => NodeValueKind::UVec3,
            InputValue::Other(k) => *k,
        }
    }

    /// The error of asking this value for a `to`.
    pub open spec fn spec_cast_error(&self, to: NodeValueKind) -> InvalidCast {
        InvalidCast { from: self.spec_kind(), to }
    }

    fn cast_error(&self, to: NodeValueKind) -> (r: InvalidCast)
        ensures
            r == self.spec_cast_error(to),
    {
        InvalidCast { from: self.kind(), to }
    }

    /// The boolean this value holds.
    pub fn try_to_bool(self) -> (r: Result<bool, InvalidCast>)
        ensures
            r == (match self {
                InputValue::Bool(b) => Ok(b),
                _ => Err(self.spec_cast_error(NodeValueKind::Bool)),
            }),
    {
        match self {
            InputValue::Bool(b) => Ok(b),
            _ => Err(self.cast_error(NodeValueKind::Bool)),
        }
    }

    /// The three booleans this value holds.
    pub fn try_to_bvec3(self) -> (r: Result<(bool, bool, bool), InvalidCast>)
        ensures
            r == (match self {
                InputValue::BVec3(x, y, z) => Ok((x, y, z)),
                _ => Err(self.spec_cast_error(NodeValueKind::BVec3)),
            }),
    {
        match self {
            InputValue::BVec3(x, y, z) => Ok((x, y, z)),
            _ => Err(self.cast_error(NodeValueKind::BVec3)),
        }
    }

    /// The integer this value holds.
    pub fn try_to_int(self) -> (r: Result<i32, InvalidCast>)
        ensures
            r == (match self {
                InputValue::Integer(i) => Ok(i),
                _ => Err(self.spec_cast_error(NodeValueKind::Integer)),
            }),
    {
        match self {
            InputValue::Integer(i) => Ok(i),
            _ => Err(self.cast_error(NodeValueKind::Integer)),
        }
    }

    /// The unsigned integer this value holds.
    pub fn try_to_uint(self) -> (r: Result<u32, InvalidCast>)
        ensures
            r == (match self {
                InputValue::UnsignedInteger(u) => Ok(u),
                _ => Err(self.spec_cast_error(NodeValueKind::UnsignedInteger)),
            }),
    {
        match self {
            InputValue::UnsignedInteger(u) => Ok(u),
            _ => Err(self.cast_error(NodeValueKind::UnsignedInteger)),
        }
    }

    /// The two unsigned integers this value holds.
    pub fn try_to_uvec2(self) -> (r: Result<(u32, u32), InvalidCast>)
        ensures
            r == (match self {
                InputValue::UVec2(x, y) => Ok((x, y)),
                _ => Err(self.spec_cast_error(NodeValueKind::UVec2)),
            }),
    {
        match self {
            InputValue::UVec2(x, y) => Ok((x, y)),
            _ => Err(self.cast_error(NodeValueKind::UVec2)),
        }
    }

    /// The three unsigned integers this value holds.
    pub fn try_to_uvec3(self) -> (r: Result<(u32, u32, u32), InvalidCast>)
        ensures
            r == (match self {
                InputValue::UVec3(x, y, z) => Ok((x, y, z)),
                _ => Err(self.spec_cast_error(NodeValueKind::UVec3)),
            }),
    {
        match self {
            InputValue::UVec3(x, y, z) => Ok((x, y, z)),
            _ => Err(self.cast_error(NodeValueKind::UVec3)),
        }
    }

    /// The name of the variant a combo box holds, from which the caller
    /// reads its enum.
    pub fn try_to_enum_name(self) -> (r: Result<String, InvalidCast>)
        ensures
            match self {
                InputValue::ComboBox(name) => r matches Ok(n) && n@ == name@,
                _ => r == Err::<String, InvalidCast>(self.spec_cast_error(NodeValueKind::ComboBox)),
            },
    {
        match self {
            InputValue::ComboBox(name) => Ok(name),
            _ => Err(self.cast_error(NodeValueKind::ComboBox)),
        }
    }

    /// The path this value holds.
    pub fn try_to_filepath(self) -> (r: Result<String, InvalidCast>)
        ensures
            match self {
                InputValue::Filepath(path) => r matches Ok(p) && p@ == path@,
                _ => r == Err::<String, InvalidCast>(self.spec_cast_error(NodeValueKind::Filepath)),
            },
    {
        match self {
            InputValue::Filepath(path) => Ok(path),
            _ => Err(self.cast_error(NodeValueKind::Filepath)),
        }
    }
}

/// One named input parameter of a node.
#[derive(Clone, Debug)]
pub struct NodeInput {
    pub name: String,
    pub value: InputValue,
    pub ui_data: UIData,
}

/// The index of the first input called `name`, as the graph's lookup of an
/// input by name gives it.
pub open spec fn spec_find_input(inputs: Seq<NodeInput>, name: Seq<char>) -> Option<int> {
    if exists|i: int| 0 <= i < inputs.len() && #[trigger] inputs[i].name@ == name {
        Some(choose|i: int| 0 <= i < inputs.len() && #[trigger] inputs[i].name@ == name
            && forall|j: int| 0 <= j < i ==> inputs[j].name@ != name)
    } else {
        None
    }
}

/// Input `k` is the first input that carries its name.
pub open spec fn spec_is_first_named(inputs: Seq<NodeInput>, k: int) -> bool {
    forall|j: int| 0 <= j < k ==> inputs[j].name@ != inputs[k].name@
}

pub fn find_input(inputs: &Vec<NodeInput>, name: &str) -> (r: Option<usize>)
    ensures
        match r {
            Some(i) => i < inputs.len() && inputs@[i as int].name@ == name@
                && spec_is_first_named(inputs@, i as int),
            None => forall|i: int| 0 <= i < inputs.len() ==> inputs@[i].name@ != name@,
        },
{
    let mut i: usize = 0;
    while i < inputs.len()
        invariant
            i <= inputs.len(),
            forall|j: int| 0 <= j < i ==> inputs@[j].name@ != name@,
        decreases inputs.len() - i,
    {
        if str_eq(inputs[i].name.as_str(), name) {
            return Some(i);
        }
        i = i + 1;
    }
    None
}

} // verus!

verus! {

/// The names of the inputs to hide and of those to show after an input of
/// a node has changed.
pub struct VisibilityChanges {
    pub to_hide: Vec<&'static str>,
    pub to_show: Vec<&'static str>,
}

pub open spec fn names_of(v: Seq<&'static str>) -> Seq<Seq<char>> {
    v.map_values(|s: &'static str| s@)
}

impl VisibilityChanges {
    pub open spec fn hide_names(&self) -> Seq<Seq<char>> {
        names_of(self.to_hide@)
    }

    pub open spec fn show_names(&self) -> Seq<Seq<char>> {
        names_of(self.to_show@)
    }

    /// No input changes visibility.
    pub fn none() -> (r: Self)
        ensures
            r.hide_names() == Seq::<Seq<char>>::empty(),
            r.show_names() == Seq::<Seq<char>>::empty(),
    {
        let r = VisibilityChanges { to_hide: Vec::new(), to_show: Vec::new() };
        assert(r.hide_names() =~= Seq::<Seq<char>>::empty());
        assert(r.show_names() =~= Seq::<Seq<char>>::empty());
        r
    }
}

/// Whether input `k` is hidden once the inputs named in `to_hide` have been
/// hidden and then those named in `to_show` shown. A name reaches only the
/// first input that carries it, and only inputs whose kind can be shown and
/// hidden change; showing comes last, so a name in both lists is shown.
pub open spec fn spec_hidden_after(
    inputs: Seq<NodeInput>,
    k: int,
    to_hide: Seq<Seq<char>>,
    to_show: Seq<Seq<char>>,
) -> bool {
    if spec_is_first_named(inputs, k) && inputs[k].value.spec_kind().spec_toggles_visibility() {
        if to_show.contains(inputs[k].name@) {
            false
        } else if to_hide.contains(inputs[k].name@) {
            true
        } else {
            inputs[k].ui_data.spec_hidden()
        }
    } else {
        inputs[k].ui_data.spec_hidden()
    }
}

/// `after` is `before` with only the hidden flags changed, as
/// `spec_hidden_after` gives them.
pub open spec fn spec_visibility_applied(
    before: Seq<NodeInput>,
    after: Seq<NodeInput>,
    to_hide: Seq<Seq<char>>,
    to_show: Seq<Seq<char>>,
) -> bool {
    &&& after.len() == before.len()
    &&& forall|k: int|
        0 <= k < before.len() ==> {
            &&& (#[trigger] after[k]).name@ == before[k].name@
            &&& after[k].value == before[k].value
            &&& after[k].ui_data.spec_tooltip() == before[k].ui_data.spec_tooltip()
            &&& after[k].ui_data.spec_hidden() == spec_hidden_after(before, k, to_hide, to_show)
        }
}

/// Hides the widget of an input whose kind can be hidden.
pub fn hide_input(input: &mut NodeInput)
    ensures
        final(input).name@ == old(input).name@,
        final(input).value == old(input).value,
        final(input).ui_data.spec_tooltip() == old(input).ui_data.spec_tooltip(),
        final(input).ui_data.spec_hidden() == (if old(input).value.spec_kind().spec_toggles_visibility() {
            true
        } else {
            old(input).ui_data.spec_hidden()
        }),
{
    if input.value.kind().toggles_visibility() {
        input.ui_data.make_hidden();
    }
}

/// Shows the widget of an input whose kind can be hidden.
pub fn show_input(input: &mut NodeInput)
    ensures
        final(input).name@ == old(input).name@,
        final(input).value == old(input).value,
        final(input).ui_data.spec_tooltip() == old(input).ui_data.spec_tooltip(),
        final(input).ui_data.spec_hidden() == (if old(input).value.spec_kind().spec_toggles_visibility() {
            false
        } else {
            old(input).ui_data.spec_hidden()
        }),
{
    if input.value.kind().toggles_visibility() {
        input.ui_data.show();
    }
}

} // verus!

verus! {

/// Hidden flags after the first `n` names of `to_hide` were hidden.
pub open spec fn spec_hidden_after_hiding(
    inputs: Seq<NodeInput>,
    k: int,
    to_hide: Seq<Seq<char>>,
) -> bool {
    if spec_is_first_named(inputs, k) && inputs[k].value.spec_kind().spec_toggles_visibility()
        && to_hide.contains(inputs[k].name@) {
        true
    } else {
        inputs[k].ui_data.spec_hidden()
    }
}

/// Hides each input named in `to_hide`, then shows each input named in
/// `to_show`.
pub fn apply_visibility(inputs: &mut Vec<NodeInput>, changes: &VisibilityChanges)
    ensures
        spec_visibility_applied(old(inputs)@, final(inputs)@, changes.hide_names(), changes.show_names()),
{
    broadcast use vstd::seq_lib::group_seq_properties;

    let ghost before = inputs@;
    let ghost hide = changes.hide_names();
    let ghost show = changes.show_names();
    let mut j: usize = 0;
    while j < changes.to_hide.len()
        invariant
            j <= changes.to_hide.len(),
            hide == changes.hide_names(),
            hide.len() == changes.to_hide@.len(),
            inputs@.len() == before.len(),
            forall|k: int|
                0 <= k < before.len() ==> {
                    &&& (#[trigger] inputs@[k]).name@ == before[k].name@
                    &&& inputs@[k].value == before[k].value
                    &&& inputs@[k].ui_data.spec_tooltip() == before[k].ui_data.spec_tooltip()
                    &&& inputs@[k].ui_data.spec_hidden() == spec_hidden_after_hiding(
                        before,
                        k,
                        hide.take(j as int),
                    )
                },
        decreases changes.to_hide.len() - j,
    {
        let name: &str = changes.to_hide[j];
        assert(hide[j as int] == name@);
        assert(hide.take(j + 1) =~= hide.take(j as int).push(name@));
        let ghost mid = inputs@;
        let found = find_input(inputs, name);
        if let Some(i) = found {
            hide_input(&mut inputs[i]);
        }
        assert(forall|k: int| 0 <= k < before.len() && found != Some(k as usize) ==> inputs@[k] == mid[k]);
        assert forall|k: int| 0 <= k < before.len() implies {
            &&& (#[trigger] inputs@[k]).name@ == before[k].name@
            &&& inputs@[k].value == before[k].value
            &&& inputs@[k].ui_data.spec_tooltip() == before[k].ui_data.spec_tooltip()
            &&& inputs@[k].ui_data.spec_hidden() == spec_hidden_after_hiding(
                before,
                k,
                hide.take(j + 1),
            )
        } by {
            assert(mid[k].name@ == before[k].name@);
            assert(mid[k].ui_data.spec_hidden() == spec_hidden_after_hiding(before, k, hide.take(j as int)));
            if before[k].name@ == name@ {
                assert(hide.take(j + 1).contains(before[k].name@)) by {
                    assert(hide.take(j + 1)[j as int] == name@);
                }
                match found {
                    Some(i) => {
                        if k != i {
                            if k < i {
                                assert(mid[k].name@ != name@);
                            } else {
                                assert(mid[i as int].name@ == before[i as int].name@);
                                assert(!spec_is_first_named(before, k));
                                assert(inputs@[k] == mid[k]);
                            }
                        } else {
                            assert forall|jj: int| 0 <= jj < k implies before[jj].name@
                                != before[k].name@ by {
                                assert(mid[jj].name@ == before[jj].name@);
                                assert(mid[jj].name@ != name@);
                            }
                            assert(spec_is_first_named(before, k));
                        }
                    },
                    None => {
                        assert(mid[k].name@ != name@);
                    },
                }
            } else {
                assert(hide.take(j + 1).contains(before[k].name@) == hide.take(
                    j as int,
                ).contains(before[k].name@));
                assert(found != Some(k as usize));
                assert(inputs@[k] == mid[k]);
            }
        }
        j = j + 1;
    }
    assert(hide.take(j as int) =~= hide);
    let ghost hidden_state = inputs@;
    let mut j: usize = 0;
    while j < changes.to_show.len()
        invariant
            j <= changes.to_show.len(),
            hide == changes.hide_names(),
            show == changes.show_names(),
            show.len() == changes.to_show@.len(),
            inputs@.len() == before.len(),
            hidden_state.len() == before.len(),
            forall|k: int|
                0 <= k < before.len() ==> {
                    &&& (#[trigger] hidden_state[k]).name@ == before[k].name@
                    &&& hidden_state[k].value == before[k].value
                    &&& hidden_state[k].ui_data.spec_hidden() == spec_hidden_after_hiding(
                        before,
                        k,
                        hide,
                    )
                },
            forall|k: int|
                0 <= k < before.len() ==> {
                    &&& (#[trigger] inputs@[k]).name@ == before[k].name@
                    &&& inputs@[k].value == before[k].value
                    &&& inputs@[k].ui_data.spec_tooltip() == before[k].ui_data.spec_tooltip()
                    &&& inputs@[k].ui_data.spec_hidden() == (if spec_is_first_named(before, k)
                        && before[k].value.spec_kind().spec_toggles_visibility() && show.take(
                        j as int,
                    ).contains(before[k].name@) {
                        false
                    } else {
                        hidden_state[k].ui_data.spec_hidden()
                    })
                },
        decreases changes.to_show.len() - j,
    {
        let name: &str = changes.to_show[j];
        assert(show[j as int] == name@);
        assert(show.take(j + 1) =~= show.take(j as int).push(name@));
        let ghost mid = inputs@;
        let found = find_input(inputs, name);
        if let Some(i) = found {
            show_input(&mut inputs[i]);
        }
        assert(forall|k: int| 0 <= k < before.len() && found != Some(k as usize) ==> inputs@[k] == mid[k]);
        assert forall|k: int| 0 <= k < before.len() implies {
            &&& (#[trigger] inputs@[k]).name@ == before[k].name@
            &&& inputs@[k].value == before[k].value
            &&& inputs@[k].ui_data.spec_tooltip() == before[k].ui_data.spec_tooltip()
            &&& inputs@[k].ui_data.spec_hidden() == (if spec_is_first_named(before, k)
                && before[k].value.spec_kind().spec_toggles_visibility() && show.take(
                j + 1,
            ).contains(before[k].name@) {
                false
            } else {
                hidden_state[k].ui_data.spec_hidden()
            })
        } by {
            assert(mid[k].name@ == before[k].name@);
            if before[k].name@ == name@ {
                assert(show.take(j + 1).contains(before[k].name@)) by {
                    assert(show.take(j + 1)[j as int] == name@);
                }
                match found {
                    Some(i) => {
                        if k != i {
                            if k < i {
                                assert(mid[k].name@ != name@);
                            } else {
                                assert(mid[i as int].name@ == before[i as int].name@);
                                assert(!spec_is_first_named(before, k));
                                assert(inputs@[k] == mid[k]);
                            }
                        } else {
                            assert forall|jj: int| 0 <= jj < k implies before[jj].name@
                                != before[k].name@ by {
                                assert(mid[jj].name@ == before[jj].name@);
                                assert(mid[jj].name@ != name@);
                            }
                            assert(spec_is_first_named(before, k));
                        }
                    },
                    None => {
                        assert(mid[k].name@ != name@);
                    },
                }
            } else {
                assert(show.take(j + 1).contains(before[k].name@) == show.take(
                    j as int,
                ).contains(before[k].name@));
                assert(found != Some(k as usize));
                assert(inputs@[k] == mid[k]);
            }
        }
        j = j + 1;
    }
    assert(show.take(j as int) =~= show);
}

} // verus!

verus! {

/// A lookup by name finds the first input that carries the name.
pub proof fn lemma_find_input_is_first(inputs: Seq<NodeInput>, name: Seq<char>, i: int)
    requires
        0 <= i < inputs.len(),
        inputs[i].name@ == name,
        spec_is_first_named(inputs, i),
    ensures
        spec_find_input(inputs, name) == Some(i),
{
    assert(inputs[i].name@ == name);
    let c = choose|c: int| 0 <= c < inputs.len() && #[trigger] inputs[c].name@ == name
        && forall|j: int| 0 <= j < c ==> inputs[j].name@ != name;
    if c < i {
        assert(inputs[c].name@ != inputs[i].name@);
    } else if c > i {
        assert(inputs[i].name@ != name);
    }
}

/// Looks an input up by name, as `spec_find_input` says.
pub fn lookup_input(inputs: &Vec<NodeInput>, name: &str) -> (r: Option<usize>)
    ensures
        match r {
            Some(i) => i < inputs.len() && spec_find_input(inputs@, name@) == Some(i as int),
            None => spec_find_input(inputs@, name@) is None,
        },
{
    let r = find_input(inputs, name);
    proof {
        match r {
            Some(i) => lemma_find_input_is_first(inputs@, name@, i as int),
            None => {},
        }
    }
    r
}

} // verus!
