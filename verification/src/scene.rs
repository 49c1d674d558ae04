//! Flattening the scene graph into the ordered list of screens to draw.
//!
//! A screen's place in the world is the product of the local transforms of its
//! ancestors and of itself, taken from the root down. The arithmetic of that
//! product is floating point and is left to the caller; what is decided here is
//! which nodes are drawn, in which order, and which transforms each product is
//! made of.
use vstd::prelude::*;
use crate::project::{
    Component, ComponentView, Node, NodeView, Project, ProjectView, Quat, Scalar, Transform, Vec3,
    ONE_BITS, views,
};

verus! {

/// A local transform with every part present: scale, then rotation, then
/// translation.
#[derive(Clone, Copy, Debug, PartialEq, Eq)]
pub struct Trs {
    pub scale: Vec3,
    pub rotation: Quat,
    pub position: Vec3,
}

/// The number 0.
pub open spec fn zero() -> Scalar {
    Scalar { bits: 0 }
}

/// The number 1.
pub open spec fn one() -> Scalar {
    Scalar { bits: ONE_BITS }
}

/// The parts of a transform, with the identity in place of each missing part:
/// no translation, no rotation, unit scale.
pub open spec fn local_trs(t: Option<Transform>) -> Trs {
    Trs {
        scale: match t {
            Some(Transform { scale: Some(s), .. }) => s,
            _ => Vec3 { x: one(), y: one(), z: one() },
        },
        rotation: match t {
            Some(Transform { rotation: Some(q), .. }) => q,
            _ => Quat { x: zero(), y: zero(), z: zero(), w: one() },
        },
        position: match t {
            Some(Transform { position: Some(p), .. }) => p,
            _ => Vec3 { x: zero(), y: zero(), z: zero() },
        },
    }
}

/// The parts of a node's transform, with the identity for what is missing.
pub fn resolve_transform(t: &Option<Transform>) -> (r: Trs)
    ensures
        r == local_trs(*t),
{
    let zero = Scalar { bits: 0 };
    let one = Scalar { bits: ONE_BITS };
    let mut r = Trs {
        scale: Vec3 { x: one, y: one, z: one },
        rotation: Quat { x: zero, y: zero, z: zero, w: one },
        position: Vec3 { x: zero, y: zero, z: zero },
    };
    match t {
        Some(t) => {
            match t.scale {
                Some(s) => {
                    r.scale = s;
                },
                None => {},
            }
            match t.rotation {
                Some(q) => {
                    r.rotation = q;
                },
                None => {},
            }
            match t.position {
                Some(p) => {
                    r.position = p;
                },
                None => {},
            }
        },
        None => {},
    }
    r
}

/// One screen to draw: the node it comes from, and the local transforms of the
/// node's ancestors and of the node itself, root first. The model matrix of the
/// instance is the product of these transforms in this order.
#[derive(Clone, Debug, PartialEq, Eq)]
pub struct InstanceData {
    pub chain: Vec<Trs>,
    pub node_id: String,
}

/// The mathematical content of an instance.
pub struct InstanceView {
    pub chain: Seq<Trs>,
    pub node_id: Seq<char>,
}

impl View for InstanceData {
    type V = InstanceView;

    open spec fn view(&self) -> InstanceView {
        InstanceView { chain: self.chain@, node_id: self.node_id@ }
    }
}

/// Whether a node carries a screen.
pub open spec fn is_screen(n: NodeView) -> bool {
    n.component matches Some(ComponentView::Screen(_))
}

/// The instances of a node and of everything below it, the node first, where
/// `above` holds the transforms of the node's ancestors, root first.
pub open spec fn flatten_node(n: NodeView, above: Seq<Trs>) -> Seq<InstanceView>
    decreases n,
{
    let chain = above.push(local_trs(n.transform));
    let own = if is_screen(n) {
        seq![InstanceView { chain, node_id: n.id }]
    } else {
        Seq::empty()
    };
    own + flatten_first(n.children, n.children.len(), chain)
}

/// The instances of the first `count` of `nodes`, one node after the other.
pub open spec fn flatten_first(nodes: Seq<NodeView>, count: nat, above: Seq<Trs>) -> Seq<
    InstanceView,
>
    decreases nodes, count,
{
    if count == 0 || count > nodes.len() {
        Seq::empty()
    } else {
        flatten_first(nodes, (count - 1) as nat, above) + flatten_node(nodes[count - 1], above)
    }
}

/// The instances of a project: those of its scene's roots, in order; none
/// without a scene.
pub open spec fn project_instances(p: ProjectView) -> Seq<InstanceView> {
    match p.scene {
        Some(scene) => flatten_first(scene.roots, scene.roots.len(), Seq::empty()),
        None => Seq::empty(),
    }
}

/// A copy of a chain of transforms.
fn copy_chain(chain: &Vec<Trs>) -> (r: Vec<Trs>)
    ensures
        r@ == chain@,
{
    let mut r: Vec<Trs> = Vec::new();
    let mut i: usize = 0;
    while i < chain.len()
        invariant
            i <= chain.len(),
            r@ == chain@.take(i as int),
        decreases chain.len() - i,
    {
        r.push(chain[i]);
        assert(r@ =~= chain@.take(i as int + 1));
        i = i + 1;
    }
    assert(chain@.take(chain.len() as int) =~= chain@);
    r
}

/// A copy of an instance.
pub fn copy_instance(inst: &InstanceData) -> (r: InstanceData)
    ensures
        r@ == inst@,
{
    InstanceData { chain: copy_chain(&inst.chain), node_id: inst.node_id.clone() }
}

/// A copy of a list of instances.
pub fn copy_instances(list: &Vec<InstanceData>) -> (r: Vec<InstanceData>)
    ensures
        views(r@) == views(list@),
{
    let mut r: Vec<InstanceData> = Vec::new();
    let mut i: usize = 0;
    while i < list.len()
        invariant
            i <= list.len(),
            r@.len() == i,
            views(r@) == views(list@).take(i as int),
        decreases list.len() - i,
    {
        let ghost before = r@;
        let item = copy_instance(&list[i]);
        r.push(item);
        assert forall|k: int| 0 <= k < r@.len() implies views(r@)[k] == views(list@).take(
            i as int + 1,
        )[k] by {
            if k < i {
                assert(r@[k] == before[k]);
                assert(views(before)[k] == views(list@).take(i as int)[k]);
            }
        }
        assert(views(r@) =~= views(list@).take(i as int + 1));
        i = i + 1;
    }
    assert(views(list@).take(list.len() as int) =~= views(list@));
    r
}

/// Appends to `out` the instances of `node` and of everything below it, where
/// `parent` holds the transforms of the node's ancestors, root first.
pub fn collect_instances(node: &Node, parent: &Vec<Trs>, out: &mut Vec<InstanceData>)
    ensures
        views(final(out)@) == views(old(out)@) + flatten_node(node@, parent@),
    decreases node,
{
    let mut chain = copy_chain(parent);
    chain.push(resolve_transform(&node.transform));
    let ghost before = views(out@);
    match &node.component {
        Some(Component::Screen(_)) => {
            out.push(InstanceData { chain: copy_chain(&chain), node_id: node.id.clone() });
        },
        _ => {},
    }
    let ghost own = if is_screen(node@) {
        seq![InstanceView { chain: chain@, node_id: node@.id }]
    } else {
        Seq::empty()
    };
    assert(views(out@) =~= before + own);
    proof {
        crate::project::lemma_node_children(*node);
    }
    let mut i: usize = 0;
    while i < node.children.len()
        invariant
            i <= node.children.len(),
            node@.children == views(node.children@),
            views(out@) == before + own + flatten_first(node@.children, i as nat, chain@),
        decreases node.children.len() - i,
    {
        let ghost sofar = views(out@);
        collect_instances(&node.children[i], &chain, out);
        assert(node@.children[i as int] == node.children@[i as int]@);
        assert(views(out@) =~= before + own + flatten_first(
            node@.children,
            (i + 1) as nat,
            chain@,
        ));
        i = i + 1;
    }
    assert(views(out@) =~= before + (own + flatten_first(
        node@.children,
        node@.children.len(),
        chain@,
    )));
}

/// The screens of a project in drawing order: depth first, every node before
/// its children, children in the order in which the scene lists them.
pub fn instances_from_project(p: &Project) -> (out: Vec<InstanceData>)
    ensures
        views(out@) == project_instances(p@),
{
    let mut out: Vec<InstanceData> = Vec::new();
    assert(views(out@) =~= Seq::empty());
    match &p.scene {
        Some(scene) => {
            let top: Vec<Trs> = Vec::new();
            let mut i: usize = 0;
            while i < scene.roots.len()
                invariant
                    i <= scene.roots.len(),
                    top@ == Seq::<Trs>::empty(),
                    views(out@) == flatten_first(views(scene.roots@), i as nat, Seq::empty()),
                decreases scene.roots.len() - i,
            {
                collect_instances(&scene.roots[i], &top, &mut out);
                assert(views(scene.roots@)[i as int] == scene.roots@[i as int]@);
                i = i + 1;
            }
        },
        None => {},
    }
    out
}

// ------------------------------------------------------------------ laws

/// A path names a node by positions among children: the first entry picks one
/// of `roots`, each further entry one of the children of the node before.
pub open spec fn valid_path(roots: Seq<NodeView>, path: Seq<int>) -> bool
    decreases path.len(),
{
    &&& path.len() >= 1
    &&& 0 <= path[0] < roots.len()
    &&& (path.len() == 1 || valid_path(roots[path[0]].children, path.drop_first()))
}

/// The node that a path names.
pub open spec fn node_at(roots: Seq<NodeView>, path: Seq<int>) -> NodeView
    decreases path.len(),
{
    if path.len() <= 1 {
        roots[path[0]]
    } else {
        node_at(roots[path[0]].children, path.drop_first())
    }
}

/// The local transforms of the nodes along a path, root first.
pub open spec fn chain_along(roots: Seq<NodeView>, path: Seq<int>) -> Seq<Trs>
    decreases path.len(),
{
    if path.len() == 0 {
        Seq::empty()
    } else {
        seq![local_trs(roots[path[0]].transform)] + chain_along(
            roots[path[0]].children,
            path.drop_first(),
        )
    }
}

/// The instance that the node named by `path` gives rise to.
pub open spec fn instance_at(roots: Seq<NodeView>, above: Seq<Trs>, path: Seq<int>) -> InstanceView {
    InstanceView { chain: above + chain_along(roots, path), node_id: node_at(roots, path).id }
}

proof fn lemma_contains_in_sum<A>(a: Seq<A>, b: Seq<A>, x: A)
    requires
        a.contains(x) || b.contains(x),
    ensures
        (a + b).contains(x),
{
    if a.contains(x) {
        let i = choose|i: int| 0 <= i < a.len() && a[i] == x;
        assert((a + b)[i] == x);
    } else {
        let i = choose|i: int| 0 <= i < b.len() && b[i] == x;
        assert((a + b)[a.len() + i] == x);
    }
}

/// Every screen of the scene is listed: the node named by a path, if it carries
/// a screen, has an instance whose chain is made of the local transforms along
/// that path, root first.
pub proof fn lemma_every_screen_is_listed(
    roots: Seq<NodeView>,
    count: nat,
    above: Seq<Trs>,
    path: Seq<int>,
)
    requires
        valid_path(roots, path),
        path[0] < count <= roots.len(),
        is_screen(node_at(roots, path)),
    ensures
        flatten_first(roots, count, above).contains(instance_at(roots, above, path)),
    decreases path.len(), count,
{
    let wanted = instance_at(roots, above, path);
    let head = flatten_first(roots, (count - 1) as nat, above);
    let n = roots[count - 1];
    if path[0] == count - 1 {
        let chain = above.push(local_trs(n.transform));
        let own = if is_screen(n) {
            seq![InstanceView { chain, node_id: n.id }]
        } else {
            Seq::empty()
        };
        let below = flatten_first(n.children, n.children.len(), chain);
        if path.len() == 1 {
            assert(chain_along(n.children, path.drop_first()) =~= Seq::empty());
            assert(wanted.chain =~= chain);
            assert(own[0] == wanted);
        } else {
            let rest = path.drop_first();
            lemma_every_screen_is_listed(n.children, n.children.len(), chain, rest);
            assert(instance_at(n.children, chain, rest).chain =~= wanted.chain);
        }
        lemma_contains_in_sum(own, below, wanted);
        lemma_contains_in_sum(head, flatten_node(n, above), wanted);
    } else {
        lemma_every_screen_is_listed(roots, (count - 1) as nat, above, path);
        lemma_contains_in_sum(head, flatten_node(n, above), wanted);
    }
}

/// Every listed instance is a screen of the scene: it comes from a node that a
/// path names and that carries a screen, and its chain is made of the local
/// transforms along that path, root first.
pub proof fn lemma_every_instance_is_a_screen(
    roots: Seq<NodeView>,
    count: nat,
    above: Seq<Trs>,
    k: int,
) -> (path: Seq<int>)
    requires
        count <= roots.len(),
        0 <= k < flatten_first(roots, count, above).len(),
    ensures
        valid_path(roots, path),
        path[0] < count,
        is_screen(node_at(roots, path)),
        flatten_first(roots, count, above)[k] == instance_at(roots, above, path),
    decreases roots, count, 1nat,
{
    let head = flatten_first(roots, (count - 1) as nat, above);
    let n = roots[count - 1];
    if k < head.len() {
        lemma_every_instance_is_a_screen(roots, (count - 1) as nat, above, k)
    } else {
        let rest = lemma_instance_below(n, above, k - head.len());
        let path = seq![count - 1] + rest;
        assert(path.drop_first() =~= rest);
        assert(instance_at(roots, above, path).chain =~= above.push(local_trs(n.transform))
            + chain_along(n.children, rest));
        path
    }
}

/// The same for one node: the path returned leads from the node's children
/// down, and is empty when the instance is the node's own.
proof fn lemma_instance_below(n: NodeView, above: Seq<Trs>, k: int) -> (rest: Seq<int>)
    requires
        0 <= k < flatten_node(n, above).len(),
    ensures
        rest.len() == 0 ==> is_screen(n) && flatten_node(n, above)[k].node_id == n.id,
        rest.len() > 0 ==> valid_path(n.children, rest) && is_screen(node_at(n.children, rest))
            && flatten_node(n, above)[k].node_id == node_at(n.children, rest).id,
        flatten_node(n, above)[k].chain == above.push(local_trs(n.transform)) + chain_along(
            n.children,
            rest,
        ),
    decreases n, 0nat, 0nat,
{
    let chain = above.push(local_trs(n.transform));
    let own = if is_screen(n) {
        seq![InstanceView { chain, node_id: n.id }]
    } else {
        Seq::empty()
    };
    if k < own.len() {
        let rest = Seq::<int>::empty();
        assert(chain + chain_along(n.children, rest) =~= chain);
        rest
    } else {
        let rest = lemma_every_instance_is_a_screen(
            n.children,
            n.children.len(),
            chain,
            k - own.len(),
        );
        rest
    }
}

/// Flattening reads nothing but the project: two projects with the same view
/// give the same instances in the same order.
pub proof fn lemma_flattening_is_a_function(a: Project, b: Project)
    requires
        a@ == b@,
    ensures
        project_instances(a@) == project_instances(b@),
{
}

} // verus!
