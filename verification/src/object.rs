use vstd::prelude::*;
use crate::dict::{Dict, DictView};

verus! {

/// The kinds of PipeWire global objects that the controller tells apart.
#[derive(Clone, Copy, Debug, PartialEq, Eq, Structural)]
pub enum ObjectType {
    Node,
    Port,
    Link,
    Factory,
    /// Any other kind of object (clients, modules, devices, ...).
    Other,
}

/// A global object as the PipeWire registry announces it: its id, its kind
/// and, where the registry sent them, its properties.
#[derive(Debug, PartialEq, Eq)]
pub struct GlobalObject {
    pub id: u32,
    pub type_: ObjectType,
    pub props: Option<Dict>,
}

/// The abstract contents of a global object.
pub struct GlobalObjectView {
    pub id: u32,
    pub type_: ObjectType,
    pub props: Option<DictView>,
}

impl View for GlobalObject {
    type V = GlobalObjectView;

    open spec fn view(&self) -> GlobalObjectView {
        GlobalObjectView {
            id: self.id,
            type_: self.type_,
            props: match self.props {
                Some(d) => Some(d@),
                None => None,
            },
        }
    }
}

} // verus!
