//! The application descriptor, as far as the shim reads it.

use vstd::prelude::*;

verus! {

/// Where the content of a component is found.
#[derive(Clone, Debug, PartialEq, Eq)]
pub enum Content {
    /// By the digest of the content, to be looked up in the content cache.
    Digest(String),
    /// At a path of the local file system.
    Path(String),
}

/// The mathematical value of [`Content`].
pub ghost enum ContentModel {
    Digest(Seq<char>),
    Path(Seq<char>),
}

impl View for Content {
    type V = ContentModel;

    open spec fn view(&self) -> ContentModel {
        match self {
            Content::Digest(digest) => ContentModel::Digest(digest@),
            Content::Path(path) => ContentModel::Path(path@),
        }
    }
}

/// One component of the application.
#[derive(Clone, Debug, PartialEq, Eq)]
pub struct Component {
    pub id: String,
    pub content: Content,
}

/// The mathematical value of a [`Component`].
pub ghost struct ComponentModel {
    pub id: Seq<char>,
    pub content: ContentModel,
}

impl View for Component {
    type V = ComponentModel;

    open spec fn view(&self) -> ComponentModel {
        ComponentModel { id: self.id@, content: self.content@ }
    }
}

/// One declared trigger: its type, and the component that it drives.
#[derive(Clone, Debug, PartialEq, Eq)]
pub struct TriggerDecl {
    pub id: String,
    pub trigger_type: String,
    pub component: String,
}

/// The mathematical value of a [`TriggerDecl`].
pub ghost struct TriggerModel {
    pub id: Seq<char>,
    pub trigger_type: Seq<char>,
    pub component: Seq<char>,
}

impl View for TriggerDecl {
    type V = TriggerModel;

    open spec fn view(&self) -> TriggerModel {
        TriggerModel {
            id: self.id@,
            trigger_type: self.trigger_type@,
            component: self.component@,
        }
    }
}

/// The resolved description of an application: its components in their order, and the
/// triggers that it declares.
#[derive(Clone, Debug, PartialEq, Eq)]
pub struct AppDescriptor {
    pub components: Vec<Component>,
    pub triggers: Vec<TriggerDecl>,
}

/// The mathematical value of an [`AppDescriptor`].
pub ghost struct AppModel {
    pub components: Seq<ComponentModel>,
    pub triggers: Seq<TriggerModel>,
}

/// The values of a list of components, in the order of the list.
pub open spec fn component_models(components: Seq<Component>) -> Seq<ComponentModel> {
    Seq::new(components.len(), |i: int| components[i]@)
}

/// The values of a list of triggers, in the order of the list.
pub open spec fn trigger_models(triggers: Seq<TriggerDecl>) -> Seq<TriggerModel> {
    Seq::new(triggers.len(), |i: int| triggers[i]@)
}

impl View for AppDescriptor {
    type V = AppModel;

    open spec fn view(&self) -> AppModel {
        AppModel {
            components: component_models(self.components@),
            triggers: trigger_models(self.triggers@),
        }
    }
}

/// The declared trigger types of an application, in the order of its triggers.
pub open spec fn trigger_types(app: &AppDescriptor) -> Seq<Seq<char>> {
    Seq::new(app.triggers.len() as nat, |i: int| app.triggers[i].trigger_type@)
}

} // verus!
