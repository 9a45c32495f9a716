//! Value types that identify a mod, a pinned version of it, and whether that
//! version can currently be fetched; and the record of active mods that the
//! running game reads back.

use crate::text::{decimal, decimal_text, starts_with};
use vstd::prelude::*;
use vstd::std_specs::convert::FromSpecImpl;
use vstd::string::StringExecFns;

verus! {

/// Whether a set of mods has to be present for everyone.
#[derive(Debug, Copy, Clone, PartialEq, Eq, Structural, Ord)]
pub enum RequiredStatus {
    RequiredByAll,
    Optional,
}

/// Whether a mod can be resolved by clients or not.
#[derive(Debug, Clone, Eq, Ord, Hash)]
pub enum ResolvableStatus {
    /// Cannot be fetched now; holds a name to show in place of a locator.
    Unresolvable(String),
    Resolvable,
}

/// A `ResolvableStatus` as plain text.
pub enum ResolvableStatusView {
    Unresolvable(Seq<char>),
    Resolvable,
}

impl View for ResolvableStatus {
    type V = ResolvableStatusView;

    open spec fn view(&self) -> ResolvableStatusView {
        match self {
            ResolvableStatus::Unresolvable(reason) => ResolvableStatusView::Unresolvable(reason@),
            ResolvableStatus::Resolvable => ResolvableStatusView::Resolvable,
        }
    }
}

/// How a mod is packaged, which decides where it is installed.
#[derive(Debug, Clone, Hash, PartialEq, Eq, Structural, Ord)]
pub enum ModType {
    /// A directory bundle, installed under the plugin directory.
    ModPlugin,
    /// An archive bundle, installed under the pak directory.
    Pak,
}

/// Points to a mod, optionally a specific version.
#[derive(Debug, Clone, Hash, Eq, Ord)]
pub struct ModSpecification {
    pub url: String,
}

impl View for ModSpecification {
    type V = Seq<char>;

    open spec fn view(&self) -> Seq<char> {
        self.url@
    }
}

/// Whether one of two locators is the beginning of the other.
pub open spec fn one_extends_other(a: Seq<char>, b: Seq<char>) -> bool {
    b.is_prefix_of(a) || a.is_prefix_of(b)
}

impl ModSpecification {
    /// Wraps a locator string.
    pub fn new(url: String) -> (spec: Self)
        ensures
            spec.url == url,
            spec@ == url@,
    {
        Self { url }
    }

    /// Whether a mod found under `self` can stand in where `other` is asked
    /// for: one locator begins with the other. A sub-resource satisfies a
    /// dependency on its parent and the other way round; so do two unrelated
    /// locators of which one happens to begin with the other.
    pub fn satisfies_dependency(&self, other: &ModSpecification) -> (satisfied: bool)
        ensures
            satisfied == one_extends_other(self@, other@),
    {
        starts_with(self.url.as_str(), other.url.as_str()) || starts_with(
            other.url.as_str(),
            self.url.as_str(),
        )
    }
}

/// Every specification satisfies a dependency on itself.
pub proof fn lemma_satisfies_dependency_reflexive(a: ModSpecification)
    ensures
        one_extends_other(a@, a@),
{
}

/// Whether `a` satisfies a dependency on `b` is whether `b` satisfies one on
/// `a`.
pub proof fn lemma_satisfies_dependency_symmetric(a: ModSpecification, b: ModSpecification)
    ensures
        one_extends_other(a@, b@) == one_extends_other(b@, a@),
{
}

/// Satisfaction does not carry over a third specification: two locators can
/// both extend a common one and still differ from each other.
pub proof fn lemma_satisfies_dependency_not_transitive()
    ensures
        exists|a: Seq<char>, b: Seq<char>, c: Seq<char>|
            one_extends_other(a, b) && one_extends_other(b, c) && !one_extends_other(a, c),
{
    let a = seq!['m', '1'];
    let b = seq!['m'];
    let c = seq!['m', '2'];
    assert(one_extends_other(a, b) && one_extends_other(b, c) && !one_extends_other(a, c));
}

/// Mod identifier used for tracking gameplay affecting status.
#[derive(Debug, Clone, Eq, Ord, Hash)]
pub struct ModIdentifier(pub String);

impl View for ModIdentifier {
    type V = Seq<char>;

    open spec fn view(&self) -> Seq<char> {
        self.0@
    }
}

impl ModIdentifier {
    /// Wraps an identifier string.
    pub fn new(s: String) -> (id: Self)
        ensures
            id.0 == s,
            id@ == s@,
    {
        Self(s)
    }
}

impl From<String> for ModIdentifier {
    fn from(value: String) -> (id: Self)
        ensures
            id@ == value@,
    {
        Self::new(value)
    }
}

impl FromSpecImpl<String> for ModIdentifier {
    open spec fn obeys_from_spec() -> bool {
        true
    }

    open spec fn from_spec(value: String) -> Self {
        ModIdentifier(value)
    }
}

impl From<&str> for ModIdentifier {
    fn from(value: &str) -> (id: Self)
        ensures
            id@ == value@,
    {
        Self::new(value.to_owned())
    }
}

impl FromSpecImpl<&str> for ModIdentifier {
    open spec fn obeys_from_spec() -> bool {
        false
    }

    open spec fn from_spec(value: &str) -> Self {
        arbitrary()
    }
}

/// Points to a specific version of a specific mod.
#[derive(Debug, Clone, Eq, Ord, Hash)]
pub struct ModResolution {
    pub url: ModIdentifier,
    pub status: ResolvableStatus,
}

/// A `ModResolution` as plain text.
pub struct ModResolutionView {
    pub url: Seq<char>,
    pub status: ResolvableStatusView,
}

impl ModResolutionView {
    /// The identifier where the mod can be fetched, the stored name where it
    /// cannot.
    pub open spec fn url_or_name(self) -> Seq<char> {
        match self.status {
            ResolvableStatusView::Resolvable => self.url,
            ResolvableStatusView::Unresolvable(name) => name,
        }
    }
}

impl View for ModResolution {
    type V = ModResolutionView;

    open spec fn view(&self) -> ModResolutionView {
        ModResolutionView { url: self.url@, status: self.status@ }
    }
}

impl ModResolution {
    /// A resolution that can be fetched under `url`.
    pub fn resolvable(url: ModIdentifier) -> (resolution: Self)
        ensures
            resolution@ == (ModResolutionView {
                url: url@,
                status: ResolvableStatusView::Resolvable,
            }),
    {
        Self { url, status: ResolvableStatus::Resolvable }
    }

    /// A resolution that cannot be fetched now and is shown as `name`.
    pub fn unresolvable(url: ModIdentifier, name: String) -> (resolution: Self)
        ensures
            resolution@ == (ModResolutionView {
                url: url@,
                status: ResolvableStatusView::Unresolvable(name@),
            }),
    {
        Self { url, status: ResolvableStatus::Unresolvable(name) }
    }

    /// Used to get the URL if resolvable or just return the mod name if not.
    /// The result is a locator only where the status is `Resolvable`.
    pub fn get_resolvable_url_or_name(&self) -> (shown: &str)
        ensures
            shown@ == self@.url_or_name(),
            self.status is Resolvable ==> shown@ == self.url@,
            self.status matches ResolvableStatus::Unresolvable(name) ==> shown@ == name@,
    {
        match &self.status {
            ResolvableStatus::Resolvable => self.url.0.as_str(),
            ResolvableStatus::Unresolvable(name) => name.as_str(),
        }
    }
}

/// The resolved description of one mod.
#[derive(Debug, Clone)]
pub struct ModInfo {
    /// Label of the provider that produced this description.
    pub provider: &'static str,
    pub name: String,
    /// The unpinned version.
    pub spec: ModSpecification,
    /// The pinned versions, in the provider's order.
    pub versions: Vec<ModSpecification>,
    pub resolution: ModResolution,
    pub suggested_require: bool,
    pub suggested_dependencies: Vec<ModSpecification>,
    pub mod_type: ModType,
}

/// A `ModInfo` as plain text, lists and flags.
pub struct ModInfoView {
    pub provider: Seq<char>,
    pub name: Seq<char>,
    pub spec: Seq<char>,
    pub versions: Seq<Seq<char>>,
    pub resolution: ModResolutionView,
    pub suggested_require: bool,
    pub suggested_dependencies: Seq<Seq<char>>,
    pub mod_type: ModType,
}

impl View for ModInfo {
    type V = ModInfoView;

    open spec fn view(&self) -> ModInfoView {
        ModInfoView {
            provider: self.provider@,
            name: self.name@,
            spec: self.spec@,
            versions: self.versions@.map_values(|v: ModSpecification| v@),
            resolution: self.resolution@,
            suggested_require: self.suggested_require,
            suggested_dependencies: self.suggested_dependencies@.map_values(
                |v: ModSpecification| v@,
            ),
            mod_type: self.mod_type,
        }
    }
}

/// What a provider answers for a specification.
#[derive(Debug, Clone)]
pub enum ModResponse {
    /// Resolution continues against another specification.
    Redirect(ModSpecification),
    /// Terminal: the mod is ready to integrate.
    Resolve(ModInfo),
}

/// A `ModResponse` as plain values.
pub enum ModResponseView {
    Redirect(Seq<char>),
    Resolve(ModInfoView),
}

impl View for ModResponse {
    type V = ModResponseView;

    open spec fn view(&self) -> ModResponseView {
        match self {
            ModResponse::Redirect(spec) => ModResponseView::Redirect(spec@),
            ModResponse::Resolve(info) => ModResponseView::Resolve(info@),
        }
    }
}

/// Stripped down mod info stored in the mod pak to be used in game.
#[derive(Debug)]
pub struct Meta {
    pub version: SemverVersion,
    pub mods: Vec<MetaMod>,
    pub config: MetaConfig,
}

/// A `Meta` as plain values: the mods in the order given.
pub struct MetaView {
    pub version: SemverVersion,
    pub mods: Seq<MetaModView>,
    pub config: MetaConfig,
}

impl View for Meta {
    type V = MetaView;

    open spec fn view(&self) -> MetaView {
        MetaView {
            version: self.version,
            mods: self.mods@.map_values(|m: MetaMod| m@),
            config: self.config,
        }
    }
}

/// Toggles that the game reads beside the list of mods.
#[derive(Debug)]
pub struct MetaConfig {
    pub disable_fix_exploding_gas: bool,
}

/// The version of the record's format.
#[derive(Debug)]
pub struct SemverVersion {
    pub major: u32,
    pub minor: u32,
    pub patch: u32,
}

impl SemverVersion {
    /// The three numbers in base ten with a dot between them.
    pub open spec fn rendered(self) -> Seq<char> {
        decimal(self.major as nat) + seq!['.'] + decimal(self.minor as nat) + seq!['.'] + decimal(
            self.patch as nat,
        )
    }

    /// Renders the version as `major.minor.patch`.
    pub fn to_string(&self) -> (text: String)
        ensures
            text@ == self.rendered(),
    {
        proof {
            reveal_strlit(".");
        }
        let mut text = decimal_text(self.major);
        text.append(".");
        text.append(decimal_text(self.minor).as_str());
        text.append(".");
        text.append(decimal_text(self.patch).as_str());
        text
    }
}

/// One active mod as the game sees it.
#[derive(Debug)]
pub struct MetaMod {
    pub name: String,
    pub version: String,
    pub url: String,
    pub author: String,
    pub required: bool,
}

/// A `MetaMod` as plain text and a flag.
pub struct MetaModView {
    pub name: Seq<char>,
    pub version: Seq<char>,
    pub url: Seq<char>,
    pub author: Seq<char>,
    pub required: bool,
}

impl View for MetaMod {
    type V = MetaModView;

    open spec fn view(&self) -> MetaModView {
        MetaModView {
            name: self.name@,
            version: self.version@,
            url: self.url@,
            author: self.author@,
            required: self.required,
        }
    }
}

} // verus!
