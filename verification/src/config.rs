//! The document in which a canvas is kept and sent.

use crate::object::{NodeValueTypes, ObjectType};
use crate::size::{CellPos, Dimensions, NodeDirection, NodeObjectSide};
use vstd::prelude::*;

verus! {

/// A document, by the version of its layout.
#[derive(Debug)]
pub enum ConfigJson {
    V1(CanvasStateJson),
}

impl ConfigJson {
    pub open spec fn inner(self) -> CanvasStateJson {
        match self {
            ConfigJson::V1(v) => v,
        }
    }

    pub fn new(editor: CanvasStateJson) -> (json: Self)
        ensures
            json == ConfigJson::V1(editor),
    {
        ConfigJson::V1(editor)
    }

    pub fn into_inner_json(self) -> (canvas: CanvasStateJson)
        ensures
            canvas == self.inner(),
    {
        match self {
            ConfigJson::V1(v) => v,
        }
    }

    pub fn as_inner_json(&self) -> (canvas: &CanvasStateJson)
        ensures
            *canvas == self.inner(),
    {
        match self {
            ConfigJson::V1(v) => v,
        }
    }

    pub fn as_mut_inner_json(&mut self) -> (canvas: &mut CanvasStateJson)
        ensures
            *canvas == old(self).inner(),
            *final(self) == ConfigJson::V1(*final(canvas)),
    {
        match self {
            ConfigJson::V1(v) => v,
        }
    }

    pub fn editor_type(&self) -> (kind: EditorType)
        ensures
            kind == EditorType::Canvas,
    {
        match self {
            ConfigJson::V1(_v) => EditorType::Canvas,
        }
    }
}

/// What is known of a canvas besides what it holds.
#[derive(Debug, Clone)]
pub struct StateInfo {
    /// Identifier of the record.
    pub id: Option<i32>,
    /// Identifier of the creator.
    pub user_id: i32,
    /// Public identifier of the canvas.
    pub canvas_id: Option<String>,
    pub revision: i32,
    /// The canvas this one was forked from, if any.
    pub forked_id: Option<String>,
    pub title: Option<String>,
    pub description: Option<String>,
    pub private: bool,
    pub created_at: i64,
    pub updated_at: i64,
    pub is_edited: bool,
}

impl StateInfo {
    /// What is known of a canvas that `user_id` has begun at the time
    /// `date` and that has not been kept yet.
    pub fn from_user_id(user_id: i32, date: i64) -> (info: Self)
        ensures
            info == (StateInfo {
                id: None,
                user_id,
                canvas_id: None,
                revision: 0,
                forked_id: None,
                title: None,
                description: None,
                private: false,
                created_at: date,
                updated_at: date,
                is_edited: false,
            }),
    {
        StateInfo {
            id: None,
            user_id,
            created_at: date,
            updated_at: date,
            canvas_id: None,
            revision: 0,
            forked_id: None,
            title: None,
            description: None,
            private: false,
            is_edited: false,
        }
    }
}

#[derive(Debug, Copy, Clone, PartialEq, Eq, Structural)]
pub enum EditorType {
    Canvas,
    CustomObject,
}

impl EditorType {
    pub open spec fn spec_num(&self) -> u8 {
        match *self {
            EditorType::Canvas => 0,
            EditorType::CustomObject => 1,
        }
    }

    /// 0 for a canvas, 1 for an object of the user's own.
    #[verifier::when_used_as_spec(spec_num)]
    pub fn num(&self) -> (num: u8)
        ensures
            num == self.spec_num(),
    {
        match self {
            EditorType::Canvas => 0,
            EditorType::CustomObject => 1,
        }
    }

    /// The kind with the number `num`, if there is one.
    pub fn from_num(num: u8) -> (kind: Option<Self>)
        ensures
            match kind {
                Some(kind) => kind.spec_num() == num,
                None => num > 1,
            },
    {
        if num == 0 {
            Some(EditorType::Canvas)
        } else if num == 1 {
            Some(EditorType::CustomObject)
        } else {
            None
        }
    }
}

#[derive(Debug)]
pub struct EditorJson {
    pub state: EditorStateJson,
}

#[derive(Debug)]
pub enum EditorStateJson {
    Canvas(CanvasStateJson),
    CustomObject(Box<CustomObjectStateJson>),
}

impl EditorStateJson {
    pub fn as_canvas(&self) -> (canvas: Option<&CanvasStateJson>)
        ensures
            match canvas {
                Some(c) => *self matches EditorStateJson::Canvas(held) && held == *c,
                None => *self is CustomObject,
            },
    {
        match self {
            EditorStateJson::Canvas(c) => Some(c),
            EditorStateJson::CustomObject(_) => None,
        }
    }

    pub fn as_custom_object(&self) -> (object: Option<&CustomObjectStateJson>)
        ensures
            match object {
                Some(c) => *self matches EditorStateJson::CustomObject(held) && *held == *c,
                None => *self is Canvas,
            },
    {
        match self {
            EditorStateJson::CustomObject(c) => Some(&**c),
            EditorStateJson::Canvas(_) => None,
        }
    }

    pub fn as_mut_canvas(&mut self) -> (canvas: Option<&mut CanvasStateJson>)
        ensures
            match canvas {
                Some(c) => *old(self) matches EditorStateJson::Canvas(held) && held == *c && *final(self) == EditorStateJson::Canvas(*final(c)),
                None => *old(self) is CustomObject && *final(self) == *old(self),
            },
    {
        match self {
            EditorStateJson::Canvas(c) => Some(c),
            EditorStateJson::CustomObject(_) => None,
        }
    }

    pub fn as_mut_custom_object(&mut self) -> (object: Option<&mut CustomObjectStateJson>)
        ensures
            match object {
                Some(c) => *old(self) matches EditorStateJson::CustomObject(held) && *held == *c
                    && *final(self) == EditorStateJson::CustomObject(Box::new(*final(c))),
                None => *old(self) is Canvas && *final(self) == *old(self),
            },
    {
        match self {
            EditorStateJson::CustomObject(c) => Some(&mut **c),
            EditorStateJson::Canvas(_) => None,
        }
    }

    pub fn into_custom_object(self) -> (object: Option<CustomObjectStateJson>)
        ensures
            match object {
                Some(c) => self matches EditorStateJson::CustomObject(held) && *held == c,
                None => self is Canvas,
            },
    {
        match self {
            EditorStateJson::CustomObject(c) => Some(*c),
            EditorStateJson::Canvas(_) => None,
        }
    }

    pub fn is_editor_canvas(&self) -> (yes: bool)
        ensures
            yes == (*self is Canvas),
    {
        match self {
            EditorStateJson::Canvas(_) => true,
            EditorStateJson::CustomObject(_) => false,
        }
    }

    pub fn is_editor_custom_object(&self) -> (yes: bool)
        ensures
            yes == (*self is CustomObject),
    {
        match self {
            EditorStateJson::Canvas(_) => false,
            EditorStateJson::CustomObject(_) => true,
        }
    }

    pub fn type_of(&self) -> (kind: EditorType)
        ensures
            kind == if *self is Canvas {
                EditorType::Canvas
            } else {
                EditorType::CustomObject
            },
    {
        match self {
            EditorStateJson::Canvas(_) => EditorType::Canvas,
            EditorStateJson::CustomObject(_) => EditorType::CustomObject,
        }
    }
}

/// A canvas as it is kept: its objects, its palette, and its wire.
#[derive(Debug)]
pub struct CanvasStateJson {
    pub objects: Vec<ObjectsJson>,
    /// The palette, colour by colour: for each colour of wire first the
    /// colour of wire that carries nothing, then the colour of wire that
    /// carries something.
    pub color_palette: Vec<(u16, u16, u16)>,
    /// For colours of the palette, by their place in it, the cells that
    /// hold wire of that colour.
    pub pixels: Vec<(usize, Vec<CellPos>)>,
}

#[derive(Debug)]
pub struct CustomObjectStateJson {
    pub custom_object: ObjectsJson,
}

#[derive(Debug)]
pub enum ObjectsJson {
    Normal(ObjectNormalJson),
    Custom(Box<ObjectCustomJson>),
    Reference(ObjectReferenceJson),
}

impl ObjectsJson {
    pub fn as_custom(&self) -> (object: Option<&ObjectCustomJson>)
        ensures
            match object {
                Some(c) => *self matches ObjectsJson::Custom(held) && *held == *c,
                None => !(*self is Custom),
            },
    {
        match self {
            ObjectsJson::Custom(c) => Some(&**c),
            _ => None,
        }
    }

    pub fn as_mut_custom(&mut self) -> (object: Option<&mut ObjectCustomJson>)
        ensures
            match object {
                Some(c) => *old(self) matches ObjectsJson::Custom(held) && *held == *c && *final(self) == ObjectsJson::Custom(Box::new(*final(c))),
                None => !(*old(self) is Custom) && *final(self) == *old(self),
            },
    {
        match self {
            ObjectsJson::Custom(c) => Some(&mut **c),
            _ => None,
        }
    }

    pub fn as_reference(&self) -> (object: Option<&ObjectReferenceJson>)
        ensures
            match object {
                Some(v) => *self matches ObjectsJson::Reference(held) && held == *v,
                None => !(*self is Reference),
            },
    {
        match self {
            ObjectsJson::Reference(v) => Some(v),
            _ => None,
        }
    }

    pub fn into_reference(self) -> (object: Option<ObjectReferenceJson>)
        ensures
            match object {
                Some(v) => self matches ObjectsJson::Reference(held) && held == v,
                None => !(self is Reference),
            },
    {
        match self {
            ObjectsJson::Reference(v) => Some(v),
            _ => None,
        }
    }
}

#[derive(Debug)]
pub struct ObjectNormalJson {
    pub type_of: ObjectType,
    pub id: usize,
    pub pos: CellPos,
    pub dim: Dimensions,
    pub nodes: Vec<NodeJson>,
}

#[derive(Debug)]
pub struct ObjectCustomJson {
    pub type_of: ObjectType,
    pub id: usize,
    pub pos: CellPos,
    pub dim: Dimensions,
    pub nodes: Vec<NodeJson>,
    pub inner_nodes: Vec<NodeJson>,
    pub node_positions: Vec<(NodeObjectSide, usize)>,
    pub object_name: Option<String>,
    pub canvas: CanvasStateJson,
}

/// An object that stands for a canvas kept elsewhere.
#[derive(Debug)]
pub struct ObjectReferenceJson {
    pub id: i32,
    pub canvas_id: String,
    pub type_of: ObjectType,
    pub pos: CellPos,
    pub nodes: Vec<NodeJson>,
}

#[derive(Debug)]
pub struct NodeJson {
    pub pos: CellPos,
    pub side: NodeObjectSide,
    pub direction: NodeDirection,
    pub accepts: NodeValueTypes,
    pub label: Option<String>,
    pub is_disabled: bool,
}

impl NodeJson {
    pub fn is_input(&self) -> (yes: bool)
        ensures
            yes == (self.direction == NodeDirection::Input),
    {
        self.direction.is_input()
    }

    pub fn is_output(&self) -> (yes: bool)
        ensures
            yes == (self.direction == NodeDirection::Output),
    {
        !self.is_input()
    }
}

} // verus!
