//! Equality and order of the identity types. Both go by the texts that the
//! types hold, in the order of their fields; of two variants the one declared
//! first comes first.

use crate::mod_info::{
    ModIdentifier, ModResolution, ModSpecification, ModType, RequiredStatus, ResolvableStatus,
    ResolvableStatusView,
};
use crate::order::{compare_text, text_order};
use std::cmp::Ordering;
use vstd::prelude::*;
use vstd::std_specs::cmp::PartialEqSpecImpl;
use vstd::std_specs::cmp::PartialOrdSpecImpl;

verus! {

impl PartialOrd for RequiredStatus {
    fn partial_cmp(&self, other: &Self) -> (order: Option<Ordering>) {
        Some(
            match (self, other) {
                (RequiredStatus::RequiredByAll, RequiredStatus::Optional) => Ordering::Less,
                (RequiredStatus::Optional, RequiredStatus::RequiredByAll) => Ordering::Greater,
                _ => Ordering::Equal,
            },
        )
    }
}

impl PartialOrdSpecImpl for RequiredStatus {
    open spec fn obeys_partial_cmp_spec() -> bool {
        true
    }

    /// `RequiredByAll` comes before `Optional`.
    open spec fn partial_cmp_spec(&self, other: &Self) -> Option<Ordering> {
        Some(
            match (*self, *other) {
                (RequiredStatus::RequiredByAll, RequiredStatus::Optional) => Ordering::Less,
                (RequiredStatus::Optional, RequiredStatus::RequiredByAll) => Ordering::Greater,
                _ => Ordering::Equal,
            },
        )
    }
}

impl PartialOrd for ModType {
    fn partial_cmp(&self, other: &Self) -> (order: Option<Ordering>) {
        Some(
            match (self, other) {
                (ModType::ModPlugin, ModType::Pak) => Ordering::Less,
                (ModType::Pak, ModType::ModPlugin) => Ordering::Greater,
                _ => Ordering::Equal,
            },
        )
    }
}

impl PartialOrdSpecImpl for ModType {
    open spec fn obeys_partial_cmp_spec() -> bool {
        true
    }

    /// `ModPlugin` comes before `Pak`.
    open spec fn partial_cmp_spec(&self, other: &Self) -> Option<Ordering> {
        Some(
            match (*self, *other) {
                (ModType::ModPlugin, ModType::Pak) => Ordering::Less,
                (ModType::Pak, ModType::ModPlugin) => Ordering::Greater,
                _ => Ordering::Equal,
            },
        )
    }
}

impl PartialEq for ModSpecification {
    fn eq(&self, other: &Self) -> (equal: bool) {
        self.url == other.url
    }
}

impl PartialEqSpecImpl for ModSpecification {
    open spec fn obeys_eq_spec() -> bool {
        true
    }

    /// Two specifications are equal when their locators are the same text.
    open spec fn eq_spec(&self, other: &Self) -> bool {
        self@ == other@
    }
}

impl PartialOrd for ModSpecification {
    fn partial_cmp(&self, other: &Self) -> (order: Option<Ordering>) {
        Some(compare_text(self.url.as_str(), other.url.as_str()))
    }
}

impl PartialOrdSpecImpl for ModSpecification {
    open spec fn obeys_partial_cmp_spec() -> bool {
        true
    }

    /// Specifications are ordered as their locators are as texts.
    open spec fn partial_cmp_spec(&self, other: &Self) -> Option<Ordering> {
        Some(text_order(self@, other@))
    }
}

impl PartialEq for ModIdentifier {
    fn eq(&self, other: &Self) -> (equal: bool) {
        self.0 == other.0
    }
}

impl PartialEqSpecImpl for ModIdentifier {
    open spec fn obeys_eq_spec() -> bool {
        true
    }

    /// Two identifiers are equal when they are the same text.
    open spec fn eq_spec(&self, other: &Self) -> bool {
        self@ == other@
    }
}

impl PartialOrd for ModIdentifier {
    fn partial_cmp(&self, other: &Self) -> (order: Option<Ordering>) {
        Some(compare_text(self.0.as_str(), other.0.as_str()))
    }
}

impl PartialOrdSpecImpl for ModIdentifier {
    open spec fn obeys_partial_cmp_spec() -> bool {
        true
    }

    /// Identifiers are ordered as texts.
    open spec fn partial_cmp_spec(&self, other: &Self) -> Option<Ordering> {
        Some(text_order(self@, other@))
    }
}

impl PartialEq for ResolvableStatus {
    fn eq(&self, other: &Self) -> (equal: bool) {
        match (self, other) {
            (ResolvableStatus::Unresolvable(a), ResolvableStatus::Unresolvable(b)) => *a == *b,
            (ResolvableStatus::Resolvable, ResolvableStatus::Resolvable) => true,
            _ => false,
        }
    }
}

impl PartialEqSpecImpl for ResolvableStatus {
    open spec fn obeys_eq_spec() -> bool {
        true
    }

    /// Two statuses are equal when they are of the same kind and, where
    /// they hold a name, hold the same text.
    open spec fn eq_spec(&self, other: &Self) -> bool {
        self@ == other@
    }
}

impl ResolvableStatusView {
    /// How `self` stands to `other`: every `Unresolvable` comes before
    /// `Resolvable`, and two of them are ordered as their names.
    pub open spec fn order(self, other: Self) -> Ordering {
        match (self, other) {
            (
                ResolvableStatusView::Unresolvable(a),
                ResolvableStatusView::Unresolvable(b),
            ) => text_order(a, b),
            (ResolvableStatusView::Unresolvable(_), ResolvableStatusView::Resolvable) => {
                Ordering::Less
            },
            (ResolvableStatusView::Resolvable, ResolvableStatusView::Unresolvable(_)) => {
                Ordering::Greater
            },
            (ResolvableStatusView::Resolvable, ResolvableStatusView::Resolvable) => {
                Ordering::Equal
            },
        }
    }
}

impl PartialOrd for ResolvableStatus {
    fn partial_cmp(&self, other: &Self) -> (order: Option<Ordering>) {
        Some(
            match (self, other) {
                (ResolvableStatus::Unresolvable(a), ResolvableStatus::Unresolvable(b)) => {
                    compare_text(a.as_str(), b.as_str())
                },
                (ResolvableStatus::Unresolvable(_), ResolvableStatus::Resolvable) => {
                    Ordering::Less
                },
                (ResolvableStatus::Resolvable, ResolvableStatus::Unresolvable(_)) => {
                    Ordering::Greater
                },
                (ResolvableStatus::Resolvable, ResolvableStatus::Resolvable) => Ordering::Equal,
            },
        )
    }
}

impl PartialOrdSpecImpl for ResolvableStatus {
    open spec fn obeys_partial_cmp_spec() -> bool {
        true
    }

    open spec fn partial_cmp_spec(&self, other: &Self) -> Option<Ordering> {
        Some(self@.order(other@))
    }
}

impl PartialEq for ModResolution {
    fn eq(&self, other: &Self) -> (equal: bool) {
        self.url == other.url && self.status == other.status
    }
}

impl PartialEqSpecImpl for ModResolution {
    open spec fn obeys_eq_spec() -> bool {
        true
    }

    /// Two resolutions are equal when identifier and status are.
    open spec fn eq_spec(&self, other: &Self) -> bool {
        self@ == other@
    }
}

impl PartialOrd for ModResolution {
    fn partial_cmp(&self, other: &Self) -> (order: Option<Ordering>) {
        match compare_text(self.url.0.as_str(), other.url.0.as_str()) {
            Ordering::Equal => self.status.partial_cmp(&other.status),
            order => Some(order),
        }
    }
}

impl PartialOrdSpecImpl for ModResolution {
    open spec fn obeys_partial_cmp_spec() -> bool {
        true
    }

    /// Resolutions are ordered by their identifiers, and those with the
    /// same identifier by their status.
    open spec fn partial_cmp_spec(&self, other: &Self) -> Option<Ordering> {
        Some(
            match text_order(self.url@, other.url@) {
                Ordering::Equal => self.status@.order(other.status@),
                order => order,
            },
        )
    }
}

} // verus!
