use vstd::prelude::*;
use crate::identity::UID;
use crate::modeling::{Builder, BuilderMode, ClassIdent, CodebaseClassID, Field, FieldValueType};

verus! {

#[derive(PartialEq, Eq, Clone, Copy, Debug, Structural)]
pub enum TreeNodeType {
    Leaf,
    Branch,
}

#[derive(PartialEq, Eq, Clone, Copy, Debug, Structural)]
pub enum ChangeOp {
    Create,
    Add,
    Modify,
    Remove,
    Delete,
}

#[derive(PartialEq, Eq, Clone, Copy, Debug, Structural)]
pub enum ChangeSubject {
    /// Only available to the root node
    Root,
    Field,
    Item,
}

pub trait ChangeNode {
    fn node_type(&self) -> TreeNodeType;

    fn op(&self) -> ChangeOp;

    fn subject(&self) -> ChangeSubject;
}

pub trait ModelSubject {
    fn class_ident(&self) -> ClassIdent;
}

pub trait FieldSubject {
    fn field(&self) -> Field;
}

pub trait ItemSubject {
    fn uid(&self) -> UID;
}

pub trait BranchChangeNode: ChangeNode {
    fn children(&self) -> &Vec<ChangeTreeNode>;
}

/// A node of the tree of changes.
#[derive(Debug)]
pub enum ChangeTreeNode {
    Model(ModelChangeNode),
    Scalar(ScalarChangeNode),
    IdentityCollection(IdentityCollectionChangeNode),
    IdentityItem(IdentityItemChangeNode),
}

/// A model that was created or modified, with the changes to its fields.
#[derive(Debug)]
pub struct ModelChangeNode {
    pub class_ident: ClassIdent,
    pub op: ChangeOp,
    pub children: Vec<ChangeTreeNode>,
}

/// A single scalar field that changed.
#[derive(Debug)]
pub struct ScalarChangeNode {
    pub field: Field,
    pub op: ChangeOp,
}

/// A Vector or Map of `impl Identifiable`.
/// Only Modify operations are valid for it. Only Add and Remove operations are valid for its children.
#[derive(Debug)]
pub struct IdentityCollectionChangeNode {
    pub field: Field,
    pub op: ChangeOp,
    /// Can only be ChangeTreeNode::IdentityItem
    pub items: Vec<ChangeTreeNode>,
}

/// A single `impl Identifiable` item in an `IdentityCollectionChangeNode`.
/// Only Add and Remove operations are valid for it.
#[derive(Debug)]
pub struct IdentityItemChangeNode {
    pub uid: UID,
    pub op: ChangeOp,
}

/// A tree representation of every field changed during a model's creation or modification, including
/// those of nested models.
#[derive(Debug)]
pub struct FieldsChanged {
    /// Created by a Builder::create or Builder::modify.
    pub root: ModelChangeNode,
}

/// Whether `fc` reports an operation `op` on a model of class `class_ident` in which the nested models of the
/// classes `changed` were modified, in that order.
pub open spec fn reports_modification(fc: FieldsChanged, class_ident: ClassIdent, op: ChangeOp, changed: Seq<ClassIdent>) -> bool {
    &&& fc.root.class_ident == class_ident
    &&& fc.root.op == op
    &&& fc.root.children@.len() == changed.len()
    &&& forall|i: int| 0 <= i < changed.len() ==>
            (#[trigger] fc.root.children@[i] matches ChangeTreeNode::Model(node) && node.class_ident == changed[i]
                && node.op == ChangeOp::Modify)
}

/// The operation that a builder in the given mode reports on its model.
pub open spec fn op_of_mode(mode: BuilderMode) -> ChangeOp {
    match mode {
        BuilderMode::Creator => ChangeOp::Create,
        BuilderMode::Editor => ChangeOp::Modify,
    }
}

impl FieldsChanged {
    pub fn new(class_ident: ClassIdent, op: ChangeOp) -> (r: Self)
        ensures
            r.root.class_ident == class_ident,
            r.root.op == op,
            r.root.children@ == Seq::<ChangeTreeNode>::empty(),
    {
        let root = ModelChangeNode::new(class_ident, op);
        Self { root }
    }

    pub fn from_builder<B: Builder>(builder: &B) -> (r: Self)
        ensures
            r.root.class_ident == builder.spec_class_ident(),
            r.root.op == op_of_mode(builder.spec_mode()),
            r.root.children@ == Seq::<ChangeTreeNode>::empty(),
    {
        let op = match builder.builder_mode() {
            BuilderMode::Creator => ChangeOp::Create,
            BuilderMode::Editor => ChangeOp::Modify,
        };
        Self::new(builder.class_ident(), op)
    }

    /// Whether `extend` accepts a nested report `rh` for `field`: the field holds a model of the report's class.
    pub open spec fn can_extend(field: Field, rh: FieldsChanged) -> bool {
        field.value_type matches FieldValueType::Model(ci) && ci.class_id == rh.root.class_ident.class_id
    }

    /// Records the changes `rh` of the nested model held by `field`, under a node for that model.
    pub fn extend(&mut self, field: Field, op: ChangeOp, rh: FieldsChanged)
        requires
            FieldsChanged::can_extend(field, rh),
        ensures
            final(self).root.class_ident == old(self).root.class_ident,
            final(self).root.op == old(self).root.op,
            final(self).root.children@.len() == old(self).root.children@.len() + 1,
            final(self).root.children@.subrange(0, old(self).root.children@.len() as int) == old(self).root.children@,
            final(self).root.children@.last() matches ChangeTreeNode::Model(node)
                && node.class_ident == subject_model(field) && node.op == op && node.children@ == rh.root.children@,
    {
        match field.value_type {
            FieldValueType::Model(class_ident) => {
                let mut model_node = ModelChangeNode::new(class_ident, op);
                model_node.children = rh.root.children;
                self.root.children.push(ChangeTreeNode::Model(model_node));
                assert(self.root.children@.subrange(0, old(self).root.children@.len() as int) =~= old(self).root.children@);
            },
            _ => {
                assert(false);
            },
        }
    }
}

/// The class of the model that a `Model` field holds.
pub open spec fn subject_model(field: Field) -> ClassIdent {
    match field.value_type {
        FieldValueType::Model(ci) => ci,
        _ => field.class_ident,
    }
}

impl Default for FieldsChanged {
    fn default() -> (r: Self)
        ensures
            r.root.class_ident.class_id == CodebaseClassID::Invalid.spec_class_id(),
            r.root.class_ident.classname == "Invalid",
            r.root.op == ChangeOp::Create,
            r.root.children@ == Seq::<ChangeTreeNode>::empty(),
    {
        Self { root: ModelChangeNode::new(ClassIdent::new(CodebaseClassID::Invalid.class_id(), "Invalid"), ChangeOp::Create) }
    }
}

impl ChangeNode for FieldsChanged {
    fn node_type(&self) -> (r: TreeNodeType)
        ensures
            r == TreeNodeType::Branch,
    {
        self.root.node_type()
    }

    fn op(&self) -> (r: ChangeOp)
        ensures
            r == self.root.op,
    {
        self.root.op()
    }

    fn subject(&self) -> (r: ChangeSubject)
        ensures
            r == ChangeSubject::Root,
    {
        self.root.subject()
    }
}

impl BranchChangeNode for FieldsChanged {
    fn children(&self) -> (r: &Vec<ChangeTreeNode>)
        ensures
            r@ == self.root.children@,
    {
        self.root.children()
    }
}

impl ChangeNode for ModelChangeNode {
    fn node_type(&self) -> (r: TreeNodeType)
        ensures
            r == TreeNodeType::Branch,
    {
        TreeNodeType::Branch
    }

    fn op(&self) -> (r: ChangeOp)
        ensures
            r == self.op,
    {
        self.op
    }

    fn subject(&self) -> (r: ChangeSubject)
        ensures
            r == ChangeSubject::Root,
    {
        ChangeSubject::Root
    }
}

impl BranchChangeNode for ModelChangeNode {
    fn children(&self) -> (r: &Vec<ChangeTreeNode>)
        ensures
            r@ == self.children@,
    {
        &self.children
    }
}

impl ModelSubject for ModelChangeNode {
    fn class_ident(&self) -> (r: ClassIdent)
        ensures
            r == self.class_ident,
    {
        self.class_ident
    }
}

impl ModelChangeNode {
    pub fn new(class_ident: ClassIdent, op: ChangeOp) -> (r: Self)
        ensures
            r.class_ident == class_ident,
            r.op == op,
            r.children@ == Seq::<ChangeTreeNode>::empty(),
    {
        Self { class_ident, op, children: Vec::new() }
    }
}

impl ChangeNode for ScalarChangeNode {
    fn node_type(&self) -> (r: TreeNodeType)
        ensures
            r == TreeNodeType::Leaf,
    {
        TreeNodeType::Leaf
    }

    fn op(&self) -> (r: ChangeOp)
        ensures
            r == self.op,
    {
        self.op
    }

    fn subject(&self) -> (r: ChangeSubject)
        ensures
            r == ChangeSubject::Field,
    {
        ChangeSubject::Field
    }
}

impl FieldSubject for ScalarChangeNode {
    fn field(&self) -> (r: Field)
        ensures
            r == self.field,
    {
        self.field
    }
}

impl ScalarChangeNode {
    pub fn new(field: Field, op: ChangeOp) -> (r: Self)
        ensures
            r.field == field,
            r.op == op,
    {
        Self { field, op }
    }
}

impl ChangeNode for IdentityCollectionChangeNode {
    fn node_type(&self) -> (r: TreeNodeType)
        ensures
            r == TreeNodeType::Branch,
    {
        TreeNodeType::Branch
    }

    fn op(&self) -> (r: ChangeOp)
        ensures
            r == self.op,
    {
        self.op
    }

    fn subject(&self) -> (r: ChangeSubject)
        ensures
            r == ChangeSubject::Item,
    {
        ChangeSubject::Item
    }
}

impl FieldSubject for IdentityCollectionChangeNode {
    fn field(&self) -> (r: Field)
        ensures
            r == self.field,
    {
        self.field
    }
}

impl BranchChangeNode for IdentityCollectionChangeNode {
    fn children(&self) -> (r: &Vec<ChangeTreeNode>)
        ensures
            r@ == self.items@,
    {
        &self.items
    }
}

impl IdentityCollectionChangeNode {
    pub fn new(field: Field, op: ChangeOp) -> (r: Self)
        requires
            op == ChangeOp::Modify,
        ensures
            r.field == field,
            r.op == op,
            r.items@ == Seq::<ChangeTreeNode>::empty(),
    {
        Self { field, op, items: Vec::new() }
    }

    pub fn insert(&mut self, item: IdentityItemChangeNode)
        ensures
            final(self).field == old(self).field,
            final(self).op == old(self).op,
            final(self).items@ == old(self).items@.push(ChangeTreeNode::IdentityItem(item)),
    {
        self.items.push(ChangeTreeNode::IdentityItem(item));
    }

    pub fn new_item(&mut self, uid: UID, op: ChangeOp)
        ensures
            final(self).field == old(self).field,
            final(self).op == old(self).op,
            final(self).items@ == old(self).items@.push(ChangeTreeNode::IdentityItem(IdentityItemChangeNode { uid, op })),
    {
        let item = IdentityItemChangeNode::new(uid, op);
        self.items.push(ChangeTreeNode::IdentityItem(item));
    }

    pub fn items(&self) -> (r: &Vec<ChangeTreeNode>)
        ensures
            r@ == self.items@,
    {
        self.children()
    }
}

impl ChangeNode for IdentityItemChangeNode {
    fn node_type(&self) -> (r: TreeNodeType)
        ensures
            r == TreeNodeType::Leaf,
    {
        TreeNodeType::Leaf
    }

    fn op(&self) -> (r: ChangeOp)
        ensures
            r == self.op,
    {
        self.op
    }

    fn subject(&self) -> (r: ChangeSubject)
        ensures
            r == ChangeSubject::Item,
    {
        ChangeSubject::Item
    }
}

impl ItemSubject for IdentityItemChangeNode {
    fn uid(&self) -> (r: UID)
        ensures
            r == self.uid,
    {
        self.uid
    }
}

impl IdentityItemChangeNode {
    pub fn new(uid: UID, op: ChangeOp) -> (r: Self)
        ensures
            r.uid == uid,
            r.op == op,
    {
        Self { uid, op }
    }
}

} // verus!
