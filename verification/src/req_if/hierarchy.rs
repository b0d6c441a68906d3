use crate::error::ReqIfError;
use crate::xml::{
    attribute, element, lemma_same_element, text_element, XmlAttributeView, XmlNode, XmlNodeView,
};
use vstd::prelude::*;

verus! {

/// A reference from a hierarchy node to the requirement that it stands for.
#[derive(Debug, PartialEq)]
pub struct Object {
    pub object_ref: String,
}

/// A node of a specification's outline.
#[derive(Debug, PartialEq)]
pub struct SpecHierarchy {
    pub identifier: String,
    pub last_change: String,
    pub object: Object,
    pub children: Option<Children>,
}

/// One level of an outline: its nodes in the order in which they were added.
#[derive(Debug, PartialEq)]
pub struct Children {
    pub spec_hierarchy: Vec<SpecHierarchy>,
}

/// The mathematical value of a hierarchy node. `children` is `None` as long as no level was
/// opened below the node, which is not the same as an open level without nodes.
pub struct HierarchyView {
    pub identifier: Seq<char>,
    pub last_change: Seq<char>,
    pub object_ref: Seq<char>,
    pub children: Option<Seq<HierarchyView>>,
}

impl View for Object {
    type V = Seq<char>;

    open spec fn view(&self) -> Seq<char> {
        self.object_ref@
    }
}

/// The mathematical value of a node, with all that it holds below it.
pub open spec fn hierarchy_view(node: SpecHierarchy) -> HierarchyView
    decreases node, 1int,
{
    HierarchyView {
        identifier: node.identifier@,
        last_change: node.last_change@,
        object_ref: node.object@,
        children: match node.children {
            Some(children) => Some(level_view(children.spec_hierarchy@)),
            None => None,
        },
    }
}

/// The mathematical values of the nodes of a level, in their order.
pub open spec fn level_view(nodes: Seq<SpecHierarchy>) -> Seq<HierarchyView>
    decreases nodes, 0int,
{
    Seq::new(
        nodes.len(),
        |i: int|
            if 0 <= i < nodes.len() {
                hierarchy_view(nodes[i])
            } else {
                arbitrary()
            },
    )
}

impl View for SpecHierarchy {
    type V = HierarchyView;

    open spec fn view(&self) -> HierarchyView {
        hierarchy_view(*self)
    }
}

impl View for Children {
    type V = Seq<HierarchyView>;

    open spec fn view(&self) -> Seq<HierarchyView> {
        level_view(self.spec_hierarchy@)
    }
}

/// The nodes of the level below `node`: none where no level was opened there yet.
pub open spec fn below(node: HierarchyView) -> Seq<HierarchyView> {
    match node.children {
        Some(children) => children,
        None => Seq::empty(),
    }
}

/// Whether a node can be added `depth` levels below `level`: each level on the way down, this
/// one first, has to hold a node, and the way leads through the last node of each.
pub open spec fn can_insert(level: Seq<HierarchyView>, depth: nat) -> bool
    decreases depth,
{
    depth == 0 || (level.len() > 0 && can_insert(below(level.last()), (depth - 1) as nat))
}

/// `level` after an attempt to add `node` to it, `depth` levels down.
///
/// At depth 0 the node becomes the last one of the level. Further down, the attempt goes on in
/// the level below the last node, which is opened if it was not. Where a level on the way
/// holds no node the attempt ends there: the levels opened so far stay open, and no node is
/// added.
pub open spec fn insert(level: Seq<HierarchyView>, node: HierarchyView, depth: nat) -> Seq<
    HierarchyView,
>
    decreases depth,
{
    if depth == 0 {
        level.push(node)
    } else if level.len() == 0 {
        level
    } else {
        let last = level.last();
        level.update(
            level.len() - 1,
            HierarchyView {
                children: Some(insert(below(last), node, (depth - 1) as nat)),
                ..last
            },
        )
    }
}

/// The depth that is still to go where an attempt to add a node `depth` levels below `level`
/// meets a level without nodes. It is 0 where the attempt meets none.
pub open spec fn missing_depth(level: Seq<HierarchyView>, depth: nat) -> nat
    decreases depth,
{
    if depth == 0 || level.len() == 0 {
        depth
    } else {
        missing_depth(below(level.last()), (depth - 1) as nat)
    }
}

/// The number of levels that hold a node, counted from `level` down through the last node of
/// each.
pub open spec fn open_levels(level: Seq<HierarchyView>) -> nat
    decreases level,
{
    if level.len() == 0 {
        0
    } else {
        match level.last().children {
            Some(children) => 1 + open_levels(children),
            None => 1,
        }
    }
}

/// `level` after `nodes` were added at its top one after another, the first one first.
pub open spec fn insert_each_at_top(level: Seq<HierarchyView>, nodes: Seq<HierarchyView>) -> Seq<
    HierarchyView,
>
    decreases nodes.len(),
{
    if nodes.len() == 0 {
        level
    } else {
        insert(insert_each_at_top(level, nodes.drop_last()), nodes.last(), 0)
    }
}

/// Whether every node of `level`, and of the levels below it, refers to a requirement whose
/// identifier is one of `identifiers`.
pub open spec fn refers_within(level: Seq<HierarchyView>, identifiers: Set<Seq<char>>) -> bool
    decreases level,
{
    forall|i: int|
        0 <= i < level.len() ==> {
            &&& identifiers.contains((#[trigger] level[i]).object_ref)
            &&& match level[i].children {
                Some(children) => refers_within(children, identifiers),
                None => true,
            }
        }
}

pub open spec fn object_xml(object_ref: Seq<char>) -> XmlNodeView {
    element("OBJECT"@, Seq::empty(), seq![text_element("SPEC-OBJECT-REF"@, object_ref)])
}

/// A hierarchy node as XML: the reference to its requirement, then the level below it if one
/// was opened.
pub open spec fn hierarchy_xml(node: HierarchyView) -> XmlNodeView
    decreases node, 1int,
{
    element(
        "SPEC-HIERARCHY"@,
        seq![
            attribute("IDENTIFIER"@, node.identifier),
            attribute("LAST-CHANGE"@, node.last_change),
        ],
        match node.children {
            Some(children) => seq![object_xml(node.object_ref), children_xml(children)],
            None => seq![object_xml(node.object_ref)],
        },
    )
}

/// A level as XML: its nodes, one element each, in their order.
pub open spec fn children_xml(level: Seq<HierarchyView>) -> XmlNodeView
    decreases level, 0int,
{
    element(
        "CHILDREN"@,
        Seq::empty(),
        Seq::new(
            level.len(),
            |i: int|
                if 0 <= i < level.len() {
                    hierarchy_xml(level[i])
                } else {
                    arbitrary()
                },
        ),
    )
}

impl Object {
    pub fn new(object_ref: String) -> (object: Object)
        ensures
            object == (Object { object_ref }),
    {
        Object { object_ref }
    }

    pub fn to_xml(&self) -> (node: XmlNode)
        ensures
            node@ == object_xml(self@),
    {
        XmlNode::element("OBJECT").child(XmlNode::text_element("SPEC-OBJECT-REF", &self.object_ref))
    }
}

impl SpecHierarchy {
    /// A node that refers to `object`, with no level below it.
    pub fn new(identifier: String, last_change: String, object: Object) -> (node: Self)
        ensures
            node == (SpecHierarchy { identifier, last_change, object, children: None }),
    {
        SpecHierarchy { identifier, last_change, object, children: None }
    }

    pub fn to_xml(&self) -> (node: XmlNode)
        ensures
            node@ == hierarchy_xml(self@),
        decreases self, 1int,
    {
        let node = XmlNode::element("SPEC-HIERARCHY")
            .attr("IDENTIFIER", &self.identifier)
            .attr("LAST-CHANGE", &self.last_change)
            .child(self.object.to_xml());
        let node = match &self.children {
            Some(children) => node.child(children.to_xml()),
            None => node,
        };
        proof {
            lemma_same_element(node@, hierarchy_xml(self@));
        }
        node
    }
}

impl Children {
    /// A level without nodes.
    pub fn new() -> (level: Self)
        ensures
            level@ == Seq::<HierarchyView>::empty(),
    {
        Children { spec_hierarchy: Vec::new() }
    }

    /// The nodes of this level, in the order in which they were added.
    pub fn get_spec_hierarchy(&self) -> (nodes: &Vec<SpecHierarchy>)
        ensures
            *nodes == self.spec_hierarchy,
    {
        &self.spec_hierarchy
    }

    /// Adds `spec_hierarchy` as the last node of the level that lies `depth` levels below this
    /// one, on the way through the last node of each level. A `depth` of 0 adds it to this
    /// level.
    ///
    /// Fails where a level on that way holds no node. The levels that were opened before that
    /// one was met stay open.
    pub fn add_spec_hierarchy(&mut self, spec_hierarchy: SpecHierarchy, depth: i32) -> (res: Result<
        (),
        ReqIfError,
    >)
        requires
            depth >= 0,
        ensures
            final(self)@ == insert(old(self)@, spec_hierarchy@, depth as nat),
            res is Ok <==> can_insert(old(self)@, depth as nat),
            res matches Err(e) ==> e == (ReqIfError::MissingIntermediateLevel {
                depth: missing_depth(old(self)@, depth as nat) as i32,
            }),
        decreases depth,
    {
        if depth == 0 {
            self.spec_hierarchy.push(spec_hierarchy);
            assert(self@ =~= old(self)@.push(spec_hierarchy@));
            Ok(())
        } else {
            let n = self.spec_hierarchy.len();
            if n == 0 {
                return Err(ReqIfError::MissingIntermediateLevel { depth });
            }
            let last = &mut self.spec_hierarchy[n - 1];
            let res = match &mut last.children {
                Some(children) => children.add_spec_hierarchy(spec_hierarchy, depth - 1),
                None => {
                    let mut children = Children::new();
                    let res = children.add_spec_hierarchy(spec_hierarchy, depth - 1);
                    last.children = Some(children);
                    res
                },
            };
            assert(self@ =~= insert(old(self)@, spec_hierarchy@, depth as nat));
            res
        }
    }

    pub fn to_xml(&self) -> (node: XmlNode)
        ensures
            node@ == children_xml(self@),
        decreases self, 0int,
    {
        let mut node = XmlNode::element("CHILDREN");
        let mut i: usize = 0;
        while i < self.spec_hierarchy.len()
            invariant
                0 <= i <= self.spec_hierarchy.len(),
                node@ is Element,
                node@->Element_name == "CHILDREN"@,
                node@->Element_attributes == Seq::<XmlAttributeView>::empty(),
                node@->Element_children == Seq::new(
                    i as nat,
                    |k: int|
                        if 0 <= k < self@.len() {
                            hierarchy_xml(self@[k])
                        } else {
                            arbitrary()
                        },
                ),
            decreases self.spec_hierarchy.len() - i,
        {
            node = node.child(self.spec_hierarchy[i].to_xml());
            i = i + 1;
        }
        proof {
            lemma_same_element(node@, children_xml(self@));
        }
        node
    }
}

/// Nodes added at the top of an empty level, one after another, make up the level in the
/// order in which they were added; none of these additions can fail.
pub proof fn lemma_top_level_keeps_order(nodes: Seq<HierarchyView>)
    ensures
        insert_each_at_top(Seq::empty(), nodes) == nodes,
        forall|level: Seq<HierarchyView>| can_insert(level, 0),
    decreases nodes.len(),
{
    if nodes.len() > 0 {
        lemma_top_level_keeps_order(nodes.drop_last());
        assert(nodes.drop_last().push(nodes.last()) =~= nodes);
    }
}

/// A node added at depth 1 to a level that holds a node becomes the last node below the last
/// node of that level. Nothing else changes: the level keeps its length, and its last node
/// keeps what it held below it before.
pub proof fn lemma_depth_one_nests_under_last(level: Seq<HierarchyView>, node: HierarchyView)
    requires
        level.len() > 0,
    ensures
        can_insert(level, 1),
        insert(level, node, 1) == level.update(
            level.len() - 1,
            HierarchyView { children: Some(below(level.last()).push(node)), ..level.last() },
        ),
{
    assert(can_insert(below(level.last()), 0));
    assert(insert(below(level.last()), node, 0) == below(level.last()).push(node));
}

/// Two nodes added at depth 1, one after the other, become siblings below the same node: the
/// last node of the level, which is still the last one after both.
pub proof fn lemma_depth_one_accumulates(
    level: Seq<HierarchyView>,
    first: HierarchyView,
    second: HierarchyView,
)
    requires
        level.len() > 0,
    ensures
        can_insert(insert(level, first, 1), 1),
        insert(insert(level, first, 1), second, 1) == level.update(
            level.len() - 1,
            HierarchyView {
                children: Some(below(level.last()).push(first).push(second)),
                ..level.last()
            },
        ),
{
    lemma_depth_one_nests_under_last(level, first);
    let after = insert(level, first, 1);
    lemma_depth_one_nests_under_last(after, second);
    assert(insert(after, second, 1) =~= level.update(
        level.len() - 1,
        HierarchyView {
            children: Some(below(level.last()).push(first).push(second)),
            ..level.last()
        },
    ));
}

/// A node cannot be added at depth 1 to a level without nodes: the attempt leaves the level
/// as it was, and the depth still to go is 1.
pub proof fn lemma_depth_one_into_empty_fails(node: HierarchyView)
    ensures
        !can_insert(Seq::empty(), 1),
        insert(Seq::empty(), node, 1) == Seq::<HierarchyView>::empty(),
        missing_depth(Seq::empty(), 1) == 1,
{
}

/// A node can be added at a depth exactly where that many levels hold a node, counted from
/// the top through the last node of each.
pub proof fn lemma_can_insert_iff_levels_open(level: Seq<HierarchyView>, depth: nat)
    ensures
        can_insert(level, depth) <==> depth <= open_levels(level),
    decreases depth,
{
    if depth > 0 && level.len() > 0 {
        lemma_can_insert_iff_levels_open(below(level.last()), (depth - 1) as nat);
        if level.last().children is None {
            assert(open_levels(Seq::<HierarchyView>::empty()) == 0);
        }
    }
}

/// An attempt fails exactly where the depth still to go at its end is not 0, and that depth
/// is the depth asked for less the number of open levels.
pub proof fn lemma_missing_depth(level: Seq<HierarchyView>, depth: nat)
    ensures
        can_insert(level, depth) <==> missing_depth(level, depth) == 0,
        !can_insert(level, depth) ==> missing_depth(level, depth) == depth - open_levels(level),
        missing_depth(level, depth) <= depth,
    decreases depth,
{
    if depth > 0 && level.len() > 0 {
        lemma_missing_depth(below(level.last()), (depth - 1) as nat);
        if level.last().children is None {
            assert(open_levels(Seq::<HierarchyView>::empty()) == 0);
        }
    }
}

/// An attempt that fails adds no node: what it leaves behind does not depend on the node.
pub proof fn lemma_failed_insert_adds_nothing(
    level: Seq<HierarchyView>,
    node: HierarchyView,
    other: HierarchyView,
    depth: nat,
)
    requires
        !can_insert(level, depth),
    ensures
        insert(level, node, depth) == insert(level, other, depth),
        insert(level, node, depth).len() == level.len(),
    decreases depth,
{
    if depth > 0 && level.len() > 0 {
        lemma_failed_insert_adds_nothing(below(level.last()), node, other, (depth - 1) as nat);
    }
}

/// Nodes that refer to requirements among some identifiers refer to requirements among more.
pub proof fn lemma_refers_within_more(
    level: Seq<HierarchyView>,
    fewer: Set<Seq<char>>,
    more: Set<Seq<char>>,
)
    requires
        refers_within(level, fewer),
        fewer.subset_of(more),
    ensures
        refers_within(level, more),
    decreases level,
{
    assert forall|i: int| 0 <= i < level.len() implies {
        &&& more.contains((#[trigger] level[i]).object_ref)
        &&& match level[i].children {
            Some(children) => refers_within(children, more),
            None => true,
        }
    } by {
        match level[i].children {
            Some(children) => {
                lemma_refers_within_more(children, fewer, more);
            },
            None => {},
        }
    }
}

/// Adding a node keeps references whole: where every node of a level refers to a known
/// requirement, and so does the node that is added with all that it holds below it, every node
/// of the level refers to a known requirement afterwards, whether the node could be added or
/// not.
pub proof fn lemma_insert_keeps_references(
    level: Seq<HierarchyView>,
    node: HierarchyView,
    depth: nat,
    identifiers: Set<Seq<char>>,
)
    requires
        refers_within(level, identifiers),
        refers_within(seq![node], identifiers),
    ensures
        refers_within(insert(level, node, depth), identifiers),
    decreases depth,
{
    let after = insert(level, node, depth);
    assert(seq![node][0] == node);
    if depth == 0 {
        assert forall|i: int| 0 <= i < after.len() implies {
            &&& identifiers.contains((#[trigger] after[i]).object_ref)
            &&& match after[i].children {
                Some(children) => refers_within(children, identifiers),
                None => true,
            }
        } by {
            if i < level.len() {
                assert(after[i] == level[i]);
            } else {
                assert(after[i] == node);
            }
        }
    } else if level.len() > 0 {
        let last = level.last();
        assert(level[level.len() - 1] == last);
        assert(refers_within(below(last), identifiers));
        lemma_insert_keeps_references(below(last), node, (depth - 1) as nat, identifiers);
        assert forall|i: int| 0 <= i < after.len() implies {
            &&& identifiers.contains((#[trigger] after[i]).object_ref)
            &&& match after[i].children {
                Some(children) => refers_within(children, identifiers),
                None => true,
            }
        } by {
            if i < level.len() - 1 {
                assert(after[i] == level[i]);
            }
        }
    }
}

} // verus!
