//! The provider-agnostic shape of a parsed BOM document.
//!
//! The reconciliation core does not parse raw BOM text; collaborators hand
//! it an already-parsed tree: an optional primary component plus a list of
//! sub-components, each described by name, version, package-manager hint
//! and an optional explicit package-url.

use vstd::prelude::*;

verus! {

/// `serde_json::Value` carried through opaquely where a model keeps a raw
/// signature block; the library never looks inside it.
#[verifier::external_type_specification]
#[verifier::external_body]
pub struct ExValue(serde_json::Value);

/// Classifies what kind of artifact a component describes.
#[derive(Clone, Copy, Debug, Eq, PartialEq, Ord, PartialOrd, Hash, Structural)]
pub enum ComponentType {
    Application,
    Framework,
    Library,
    Container,
    OperatingSystem,
    Device,
    Firmware,
    File,
}

impl Default for ComponentType {
    fn default() -> (r: ComponentType)
        ensures
            r == ComponentType::Application,
    {
        ComponentType::Application
    }
}

/// The scope a component has within its parent BOM.
#[derive(Clone, Copy, Debug, Eq, PartialEq, Ord, PartialOrd, Hash, Structural)]
pub enum Scope {
    Required,
    Optional,
    Excluded,
}

impl Default for Scope {
    fn default() -> (r: Scope)
        ensures
            r == Scope::Required,
    {
        Scope::Required
    }
}

/// How complete a composition claims to be.
#[derive(Clone, Copy, Debug, Eq, PartialEq, Ord, PartialOrd, Hash, Structural)]
pub enum AggregateType {
    Complete,
    Incomplete,
    IncompleteFirstPartyOnly,
    IncompleteThirdPartyOnly,
    Unknown,
    NotSpecified,
}

impl AggregateType {
    /// The serialized name of the variant.
    pub fn to_string(&self) -> (r: String)
        ensures
            *self == AggregateType::Complete ==> r@ == "complete"@,
            *self == AggregateType::Incomplete ==> r@ == "incomplete"@,
            *self == AggregateType::IncompleteFirstPartyOnly ==> r@
                == "incomplete_first_party_only"@,
            *self == AggregateType::IncompleteThirdPartyOnly ==> r@
                == "incomplete_third_party_only"@,
            *self == AggregateType::Unknown ==> r@ == "unknown"@,
            *self == AggregateType::NotSpecified ==> r@ == "not_specified"@,
    {
        match self {
            AggregateType::Complete => "complete".to_owned(),
            AggregateType::Incomplete => "incomplete".to_owned(),
            AggregateType::IncompleteFirstPartyOnly => "incomplete_first_party_only".to_owned(),
            AggregateType::IncompleteThirdPartyOnly => "incomplete_third_party_only".to_owned(),
            AggregateType::Unknown => "unknown".to_owned(),
            AggregateType::NotSpecified => "not_specified".to_owned(),
        }
    }
}

impl Default for AggregateType {
    fn default() -> (r: AggregateType)
        ensures
            r == AggregateType::Complete,
    {
        AggregateType::Complete
    }
}

/// Describes which components a composition covers.
pub struct Compositions {
    /// How complete the composition claims to be.
    pub aggregate: AggregateType,
    /// The bom-ref identifiers of the assemblies described.
    pub assemblies: Option<Vec<String>>,
    /// The bom-ref identifiers of the dependencies described.
    pub dependencies: Option<Vec<String>>,
    /// An opaque signature block, if the document carried one.
    pub signature: Option<serde_json::Value>,
}

impl Compositions {
    /// A composition of the given completeness with nothing else set.
    pub fn new(aggregate: AggregateType) -> (r: Compositions)
        ensures
            r.aggregate == aggregate,
            r.assemblies is None,
            r.dependencies is None,
            r.signature is None,
    {
        Compositions { aggregate, assemblies: None, dependencies: None, signature: None }
    }
}

/// The source where an issue is documented.
pub struct Source {
    /// The name of the source, for example "NVD".
    pub name: Option<String>,
    /// The url of the issue documentation as provided by the source.
    pub url: Option<String>,
}

impl Source {
    /// An empty source record.
    pub fn new() -> (r: Source)
        ensures
            r.name is None,
            r.url is None,
    {
        Source { name: None, url: None }
    }
}

/// Release notes attached to a component.
pub struct ReleaseNotes {
    /// The software versioning type, such as "major" or "patch".
    pub release_type: String,
    /// The title of the release.
    pub title: Option<String>,
    /// The URL of an image displayed with the release note.
    pub featured_image: Option<String>,
    /// The URL of an image used on social media platforms.
    pub social_image: Option<String>,
    /// A short description of the release.
    pub description: Option<String>,
    /// When the release note was created.
    pub timestamp: Option<String>,
    /// Alternate names the release may be referred to by.
    pub aliases: Option<Vec<String>>,
    /// Tags aiding search or retrieval of the release note.
    pub tags: Option<Vec<String>>,
}

impl ReleaseNotes {
    /// Release notes of the given versioning type with nothing else set.
    pub fn new(release_type: String) -> (r: ReleaseNotes)
        ensures
            r.release_type == release_type,
            r.title is None,
            r.featured_image is None,
            r.social_image is None,
            r.description is None,
            r.timestamp is None,
            r.aliases is None,
            r.tags is None,
    {
        ReleaseNotes {
            release_type,
            title: None,
            featured_image: None,
            social_image: None,
            description: None,
            timestamp: None,
            aliases: None,
            tags: None,
        }
    }
}

/// Information about the automated or manual tool used.
pub struct Tool {
    /// The name of the vendor who created the tool.
    pub vendor: Option<String>,
    /// The name of the tool.
    pub name: Option<String>,
    /// The version of the tool.
    pub version: Option<String>,
}

impl Tool {
    /// An empty tool record.
    pub fn new() -> (r: Tool)
        ensures
            r.vendor is None,
            r.name is None,
            r.version is None,
    {
        Tool { vendor: None, name: None, version: None }
    }
}

/// One component named by a BOM: either the document's primary subject or
/// a dependency listed inside it.
pub struct Component {
    /// What kind of artifact the component is.
    pub component_type: ComponentType,
    /// The name of the component.
    pub name: String,
    /// The component version, if stated.
    pub version: Option<String>,
    /// The package-manager/ecosystem hint, such as "npm".
    pub package_manager: Option<String>,
    /// An explicit package-url, if the provider supplied one.
    pub purl: Option<String>,
    /// The scope of the component within the BOM.
    pub scope: Option<Scope>,
}

/// Mathematical value of a [`Component`].
#[verifier::ext_equal]
pub ghost struct ComponentView {
    pub component_type: ComponentType,
    pub name: Seq<char>,
    pub version: Option<Seq<char>>,
    pub package_manager: Option<Seq<char>>,
    pub purl: Option<Seq<char>>,
    pub scope: Option<Scope>,
}

impl View for Component {
    type V = ComponentView;

    open spec fn view(&self) -> ComponentView {
        ComponentView {
            component_type: self.component_type,
            name: self.name@,
            version: self.version.deep_view(),
            package_manager: self.package_manager.deep_view(),
            purl: self.purl.deep_view(),
            scope: self.scope,
        }
    }
}

impl Component {
    /// A component of the given type and name with nothing else set.
    pub fn new(component_type: ComponentType, name: String) -> (r: Component)
        ensures
            r.component_type == component_type,
            r.name == name,
            r.version is None,
            r.package_manager is None,
            r.purl is None,
            r.scope is None,
    {
        Component {
            component_type,
            name,
            version: None,
            package_manager: None,
            purl: None,
            scope: None,
        }
    }
}

impl Clone for Component {
    fn clone(&self) -> (r: Self)
        ensures
            r@ == self@,
    {
        let r = Component {
            component_type: self.component_type,
            name: self.name.clone(),
            version: crate::strings::clone_opt_string(&self.version),
            package_manager: crate::strings::clone_opt_string(&self.package_manager),
            purl: crate::strings::clone_opt_string(&self.purl),
            scope: self.scope,
        };
        proof {
            assert(r@ =~= self@);
        }
        r
    }
}

/// The mathematical value of a list of components.
pub open spec fn component_seq_view(s: Seq<Component>) -> Seq<ComponentView> {
    s.map_values(|c: Component| c@)
}

/// A parsed BOM document: an optional primary component (the document's
/// subject) and an ordered list of sub-components (its dependencies).
pub struct Bom {
    /// The primary component the document describes.
    pub component: Option<Component>,
    /// The sub-components listed by the document.
    pub components: Option<Vec<Component>>,
}

/// Mathematical value of a [`Bom`].
#[verifier::ext_equal]
pub ghost struct BomView {
    pub component: Option<ComponentView>,
    pub components: Option<Seq<ComponentView>>,
}

impl View for Bom {
    type V = BomView;

    open spec fn view(&self) -> BomView {
        BomView {
            component: match self.component {
                Some(c) => Some(c@),
                None => None,
            },
            components: match self.components {
                Some(v) => Some(component_seq_view(v@)),
                None => None,
            },
        }
    }
}

impl Bom {
    /// The primary component the document describes, if it carries one.
    pub fn component<'a>(&'a self) -> (r: Option<&'a Component>)
        ensures
            match r {
                Some(c) => self@.component == Some(c@),
                None => self@.component is None,
            },
    {
        match &self.component {
            Some(c) => Some(c),
            None => None,
        }
    }
}

impl Clone for Bom {
    fn clone(&self) -> (r: Self)
        ensures
            r@ == self@,
    {
        let component = match &self.component {
            Some(c) => Some(c.clone()),
            None => None,
        };
        let components = match &self.components {
            Some(v) => Some(clone_components(v)),
            None => None,
        };
        let r = Bom { component, components };
        proof {
            assert(r@ =~= self@);
        }
        r
    }
}

/// Copies a list of components, preserving its mathematical value.
fn clone_components(v: &Vec<Component>) -> (r: Vec<Component>)
    ensures
        component_seq_view(r@) == component_seq_view(v@),
{
    let n = v.len();
    let mut out: Vec<Component> = Vec::new();
    let mut i: usize = 0;
    while i < n
        invariant
            i <= n,
            n == v@.len(),
            out@.len() == i,
            forall|j: int| 0 <= j < i ==> component_seq_view(out@)[j] == component_seq_view(v@)[j],
        decreases n - i,
    {
        out.push(v[i].clone());
        i += 1;
    }
    proof {
        assert(component_seq_view(out@) =~= component_seq_view(v@));
    }
    out
}

} // verus!
