//! Values carried by wires and nodes, and the kinds of object.

use vstd::prelude::*;

verus! {

/// What a wire or a node carries.
#[derive(Debug, Clone, Copy, PartialEq, Eq, Structural)]
pub enum NodeValue {
    Gpio(bool),
}

impl NodeValue {
    pub open spec fn active(self) -> bool {
        match self {
            NodeValue::Gpio(v) => v,
        }
    }

    /// The value that carries nothing.
    pub open spec fn inactive() -> NodeValue {
        NodeValue::Gpio(false)
    }

    #[verifier::when_used_as_spec(active)]
    pub fn is_active(self) -> (yes: bool)
        ensures
            yes == self.active(),
    {
        match self {
            NodeValue::Gpio(v) => v,
        }
    }

    /// Makes the value inactive.
    pub fn unset(&mut self)
        ensures
            *final(self) == NodeValue::inactive(),
    {
        *self = NodeValue::Gpio(false);
    }
}

/// The kinds of value a node takes.
///
/// `==` on this type is the compatibility relation `accepts`, not identity:
/// `GpioOrCurrent` is not equal to itself.
#[derive(Debug, Clone, Copy, Eq)]
pub enum NodeValueTypes {
    Gpio,
    Current,
    GpioOrCurrent,
}

impl NodeValueTypes {
    /// Whether a node of this kind takes a value of the kind `other`.
    /// A kind takes itself, but for `GpioOrCurrent`, which stands for
    /// either of the other two and takes those.
    pub open spec fn compatible(self, other: NodeValueTypes) -> bool {
        match (self, other) {
            (NodeValueTypes::GpioOrCurrent, NodeValueTypes::GpioOrCurrent) => false,
            (NodeValueTypes::GpioOrCurrent, _) => true,
            (_, NodeValueTypes::GpioOrCurrent) => true,
            (NodeValueTypes::Gpio, NodeValueTypes::Gpio) => true,
            (NodeValueTypes::Current, NodeValueTypes::Current) => true,
            _ => false,
        }
    }

    /// The kind of the value `value`.
    pub open spec fn kind_of(value: NodeValue) -> NodeValueTypes {
        match value {
            NodeValue::Gpio(_) => NodeValueTypes::Gpio,
        }
    }

    #[verifier::when_used_as_spec(compatible)]
    pub fn accepts(self, other: NodeValueTypes) -> (yes: bool)
        ensures
            yes == self.compatible(other),
    {
        match (self, other) {
            (NodeValueTypes::GpioOrCurrent, NodeValueTypes::Current) => true,
            (NodeValueTypes::GpioOrCurrent, NodeValueTypes::Gpio) => true,
            (NodeValueTypes::Current, NodeValueTypes::GpioOrCurrent) => true,
            (NodeValueTypes::Gpio, NodeValueTypes::GpioOrCurrent) => true,
            (NodeValueTypes::Current, NodeValueTypes::Current) => true,
            (NodeValueTypes::Gpio, NodeValueTypes::Gpio) => true,
            _ => false,
        }
    }
}

impl PartialEq for NodeValueTypes {
    fn eq(&self, other: &Self) -> (yes: bool) {
        self.accepts(*other)
    }
}

impl vstd::std_specs::cmp::PartialEqSpecImpl for NodeValueTypes {
    open spec fn obeys_eq_spec() -> bool {
        true
    }

    open spec fn eq_spec(&self, other: &Self) -> bool {
        self.compatible(*other)
    }
}

#[derive(Debug, Clone, Copy, PartialEq, Eq, Structural)]
pub enum ObjectType {
    Button,
    Clock,
    Led,
    Switch,
    AndGate,
    NotGate,
    OrGate,
    XorGate,
    TestObj,
}

impl ObjectType {
    /// Whether objects of this kind can be made.
    pub open spec fn available(self) -> bool {
        self == ObjectType::Button || self == ObjectType::Led || self == ObjectType::Switch
            || self == ObjectType::TestObj
    }

    /// The kinds of which objects can be made.
    pub fn list() -> (kinds: Vec<ObjectType>)
        ensures
            kinds@ == seq![
                ObjectType::Button,
                ObjectType::Led,
                ObjectType::Switch,
                ObjectType::TestObj,
            ],
            forall|kind: ObjectType| kinds@.contains(kind) <==> kind.available(),
    {
        let mut kinds = Vec::new();
        kinds.push(ObjectType::Button);
        kinds.push(ObjectType::Led);
        kinds.push(ObjectType::Switch);
        kinds.push(ObjectType::TestObj);
        proof {
            let expected = seq![
                ObjectType::Button,
                ObjectType::Led,
                ObjectType::Switch,
                ObjectType::TestObj,
            ];
            assert(kinds@ =~= expected);
        }
        kinds
    }

    /// Whether objects of this kind can be made.
    pub fn is_available(self) -> (yes: bool)
        ensures
            yes == self.available(),
    {
        match self {
            ObjectType::Button | ObjectType::Led | ObjectType::Switch | ObjectType::TestObj => true,
            _ => false,
        }
    }
}

} // verus!
