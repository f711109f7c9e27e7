//! Marker types of the editor's interface and of well-known things.

use vstd::prelude::*;
use core::any::TypeId;

verus! {

/// A panel of the editor's interface, with the name it is shown under.
pub trait UiMarker {
    spec fn spec_name() -> Seq<char>;

    fn name() -> (r: &'static str)
        ensures
            r@ == Self::spec_name(),
    ;
}

/// The bottom panel with the home controls.
#[derive(Debug, Default)]
pub struct HomeControlsMarker;

/// The left panel with the context.
#[derive(Debug, Default)]
pub struct ContextControlsMarker;

/// The right panel with the inspector.
#[derive(Debug, Default)]
pub struct InspectorControlsMarker;

impl UiMarker for HomeControlsMarker {
    open spec fn spec_name() -> Seq<char> {
        "Home Controls"@
    }

    fn name() -> (r: &'static str) {
        "Home Controls"
    }
}

impl UiMarker for ContextControlsMarker {
    open spec fn spec_name() -> Seq<char> {
        "Context"@
    }

    fn name() -> (r: &'static str) {
        "Context"
    }
}

impl UiMarker for InspectorControlsMarker {
    open spec fn spec_name() -> Seq<char> {
        "Inspector"@
    }

    fn name() -> (r: &'static str) {
        "Inspector"
    }
}

/// Marks the editor's camera.
#[derive(Debug)]
pub struct CameraMarker;

/// Sets up the editor's camera.
#[derive(Debug)]
pub struct CameraPlugin;

/// Collects the editor's mouse and touch input.
#[derive(Debug)]
pub struct InputPlugin;

/// The keys of per-path attributes.
#[derive(Clone, Copy, PartialEq, Eq, Structural, Debug)]
pub enum AttrKey {
    IsIgnored,
    Storage,
}

#[verifier::external_type_specification]
#[verifier::external_body]
pub struct ExTypeId(TypeId);

/// A per-path attribute; the storage is named by the id of its type.
#[derive(Debug)]
pub enum Attr {
    IsIgnored,
    Storage(TypeId),
}

/// A thing with a fixed record id, such as `thing:websiteroot`; implemented by
/// the crates that define such things.
pub trait AThing {
    spec fn spec_id() -> Seq<char>;

    fn id() -> (r: &'static str)
        ensures
            r@ == Self::spec_id(),
    ;
}

/// The website's root thing.
#[derive(Debug)]
pub struct WebsiteRoot;

/// The children of the website's root thing.
#[derive(Debug)]
pub struct WebsiteChildren;

} // verus!
